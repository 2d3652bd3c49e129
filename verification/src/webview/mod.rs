//! Building a web view step by step.

use crate::helper::fields::{last_wins, HeaderFields};
use crate::helper::header::{
    all_values_visible,
    header_fields_lossy,
    header_map_entries,
    lossy_fields,
};
use crate::helper::webview::{WebViewInitData, WebViewStyle, WebviewError};
use vstd::prelude::*;

verus! {

/// What has been said so far of a web view that is to be made. Everything is
/// optional but the tag, which names the web view to the host.
#[derive(Debug)]
pub struct WebViewBuilder {
    pub url: Option<String>,
    pub style: Option<WebViewStyle>,
    pub javascript_enabled: Option<bool>,
    pub devtools: Option<bool>,
    pub user_agent: Option<String>,
    pub autoplay: Option<bool>,
    pub initialization_scripts: Option<Vec<String>>,
    pub headers: Option<HeaderFields>,
    pub html: Option<String>,
    pub transparent: Option<bool>,
    pub id: Option<String>,
}

impl WebViewBuilder {
    /// A builder of which nothing has been said.
    pub open spec fn empty() -> WebViewBuilder {
        WebViewBuilder {
            url: None,
            style: None,
            javascript_enabled: None,
            devtools: None,
            user_agent: None,
            autoplay: None,
            initialization_scripts: None,
            headers: None,
            html: None,
            transparent: None,
            id: None,
        }
    }

    /// The data that the host is given, once there is a tag.
    pub open spec fn init_data(self) -> WebViewInitData {
        WebViewInitData {
            url: self.url,
            id: self.id,
            style: self.style,
            javascript_enabled: self.javascript_enabled,
            devtools: self.devtools,
            user_agent: self.user_agent,
            autoplay: self.autoplay,
            initialization_scripts: self.initialization_scripts,
            headers: self.headers,
            html: self.html,
            transparent: self.transparent,
        }
    }

    /// A builder of which nothing has been said.
    pub fn new() -> (r: WebViewBuilder)
        ensures
            r == WebViewBuilder::empty(),
    {
        WebViewBuilder {
            url: None,
            style: None,
            javascript_enabled: None,
            devtools: None,
            user_agent: None,
            autoplay: None,
            initialization_scripts: None,
            headers: None,
            html: None,
            transparent: None,
            id: None,
        }
    }

    /// Sets the tag that names the web view to the host.
    pub fn id(self, id: String) -> (r: WebViewBuilder)
        ensures
            r == (WebViewBuilder { id: Some(id), ..self }),
    {
        WebViewBuilder { id: Some(id), ..self }
    }

    /// Sets the address to load first.
    pub fn url(self, url: String) -> (r: WebViewBuilder)
        ensures
            r == (WebViewBuilder { url: Some(url), ..self }),
    {
        WebViewBuilder { url: Some(url), ..self }
    }

    /// Sets where the web view lies and how it looks.
    pub fn style(self, style: WebViewStyle) -> (r: WebViewBuilder)
        ensures
            r == (WebViewBuilder { style: Some(style), ..self }),
    {
        WebViewBuilder { style: Some(style), ..self }
    }

    /// Says whether pages may run scripts.
    pub fn javascript_enabled(self, javascript_enabled: bool) -> (r: WebViewBuilder)
        ensures
            r == (WebViewBuilder { javascript_enabled: Some(javascript_enabled), ..self }),
    {
        WebViewBuilder { javascript_enabled: Some(javascript_enabled), ..self }
    }

    /// Says whether the developer tools are on.
    pub fn devtools(self, devtools: bool) -> (r: WebViewBuilder)
        ensures
            r == (WebViewBuilder { devtools: Some(devtools), ..self }),
    {
        WebViewBuilder { devtools: Some(devtools), ..self }
    }

    /// Sets the user agent that the web view names itself by.
    pub fn user_agent(self, user_agent: String) -> (r: WebViewBuilder)
        ensures
            r == (WebViewBuilder { user_agent: Some(user_agent), ..self }),
    {
        WebViewBuilder { user_agent: Some(user_agent), ..self }
    }

    /// Says whether media may start playing by itself.
    pub fn autoplay(self, autoplay: bool) -> (r: WebViewBuilder)
        ensures
            r == (WebViewBuilder { autoplay: Some(autoplay), ..self }),
    {
        WebViewBuilder { autoplay: Some(autoplay), ..self }
    }

    /// Sets the scripts to run before each page's own.
    pub fn initialization_scripts(self, initialization_scripts: Vec<String>) -> (r:
        WebViewBuilder)
        ensures
            r == (WebViewBuilder {
                initialization_scripts: Some(initialization_scripts),
                ..self
            }),
    {
        WebViewBuilder { initialization_scripts: Some(initialization_scripts), ..self }
    }

    /// Sets the headers to send with the first request. The host takes one
    /// text value for each name: of several values for one name the last one
    /// stays. Every value must be text, that is visible ASCII and tabs.
    pub fn headers(self, headers: http::HeaderMap<http::HeaderValue>) -> (r: WebViewBuilder)
        requires
            all_values_visible(header_map_entries(headers)),
        ensures
            r.headers matches Some(fields) && fields@ == last_wins(
                lossy_fields(header_map_entries(headers)),
            ),
            (WebViewBuilder { headers: None, ..r }) == (WebViewBuilder { headers: None, ..self }),
    {
        let fields = header_fields_lossy(&headers);
        WebViewBuilder { headers: Some(fields), ..self }
    }

    /// Sets the page to show instead of loading an address.
    pub fn html(self, html: String) -> (r: WebViewBuilder)
        ensures
            r == (WebViewBuilder { html: Some(html), ..self }),
    {
        WebViewBuilder { html: Some(html), ..self }
    }

    /// Says whether the background of the web view is transparent.
    pub fn transparent(self, transparent: bool) -> (r: WebViewBuilder)
        ensures
            r == (WebViewBuilder { transparent: Some(transparent), ..self }),
    {
        WebViewBuilder { transparent: Some(transparent), ..self }
    }

    /// Ends the building: the data with which the host creates the web view.
    /// Without a tag there is nothing to create. With a tag, the host must be
    /// reachable: its helper object and the main thread must both be known.
    pub fn build(self, helper_known: bool, main_thread_known: bool) -> (r: Result<
        WebViewInitData,
        WebviewError,
    >)
        ensures
            r == if self.id is None {
                Err::<WebViewInitData, WebviewError>(WebviewError::MissingTag)
            } else if helper_known && main_thread_known {
                Ok::<WebViewInitData, WebviewError>(self.init_data())
            } else {
                Err::<WebViewInitData, WebviewError>(WebviewError::CreateFailed)
            },
    {
        if self.id.is_none() {
            return Err(WebviewError::MissingTag);
        }
        if !(helper_known && main_thread_known) {
            return Err(WebviewError::CreateFailed);
        }
        Ok(
            WebViewInitData {
                url: self.url,
                id: self.id,
                style: self.style,
                javascript_enabled: self.javascript_enabled,
                devtools: self.devtools,
                user_agent: self.user_agent,
                autoplay: self.autoplay,
                initialization_scripts: self.initialization_scripts,
                headers: self.headers,
                html: self.html,
                transparent: self.transparent,
            },
        )
    }
}

impl Default for WebViewBuilder {
    fn default() -> (r: WebViewBuilder)
        ensures
            r == WebViewBuilder::empty(),
    {
        WebViewBuilder::new()
    }
}

} // verus!
