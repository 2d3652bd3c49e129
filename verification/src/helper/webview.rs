//! What the ability tells the host about a web view, and what the host's
//! callbacks tell the ability.

use super::fields::HeaderFields;
use napi_ohos::Either;
use vstd::prelude::*;

verus! {

/// Where a web view lies and how it looks. A coordinate is a number of
/// pixels, held as the bit pattern of its IEEE 754 binary64 form, or a text
/// such as a percentage.
#[derive(Debug)]
pub struct WebViewStyle {
    pub x: Option<Either<u64, String>>,
    pub y: Option<Either<u64, String>>,
    pub visible: Option<bool>,
    pub background_color: Option<String>,
}

impl Default for WebViewStyle {
    fn default() -> (r: WebViewStyle)
        ensures
            r.x is None,
            r.y is None,
            r.visible is None,
            r.background_color is None,
    {
        WebViewStyle { x: None, y: None, visible: None, background_color: None }
    }
}

/// The application's answer when a download is about to start.
#[derive(Debug)]
pub struct DownloadStartResult {
    /// Whether the download may go on.
    pub allow: bool,
    /// Where to put the file.
    pub temp_path: Option<String>,
}

impl Default for DownloadStartResult {
    fn default() -> (r: DownloadStartResult)
        ensures
            !r.allow,
            r.temp_path is None,
    {
        DownloadStartResult { allow: false, temp_path: None }
    }
}

/// Everything the host needs to know to create a web view.
#[derive(Debug)]
pub struct WebViewInitData {
    pub url: Option<String>,
    pub id: Option<String>,
    pub style: Option<WebViewStyle>,
    pub javascript_enabled: Option<bool>,
    pub devtools: Option<bool>,
    pub user_agent: Option<String>,
    pub autoplay: Option<bool>,
    pub initialization_scripts: Option<Vec<String>>,
    pub headers: Option<HeaderFields>,
    pub html: Option<String>,
    pub transparent: Option<bool>,
}

impl WebViewInitData {
    /// Whether nothing but the address and the tag is set.
    pub open spec fn plain(self) -> bool {
        &&& self.style is None
        &&& self.javascript_enabled is None
        &&& self.devtools is None
        &&& self.user_agent is None
        &&& self.autoplay is None
        &&& self.initialization_scripts is None
        &&& self.headers is None
        &&& self.html is None
        &&& self.transparent is None
    }

    /// The data for a web view that only has an address.
    pub fn for_url(url: &str) -> (r: WebViewInitData)
        ensures
            r.url matches Some(address) && address@ == url@,
            r.id is None,
            r.plain(),
    {
        WebViewInitData {
            url: Some(url.to_owned()),
            id: None,
            style: None,
            javascript_enabled: None,
            devtools: None,
            user_agent: None,
            autoplay: None,
            initialization_scripts: None,
            headers: None,
            html: None,
            transparent: None,
        }
    }

    /// The data for a web view that has an address and a tag.
    pub fn for_url_with_id(url: &str, id: &str) -> (r: WebViewInitData)
        ensures
            r.url matches Some(address) && address@ == url@,
            r.id matches Some(tag) && tag@ == id@,
            r.plain(),
    {
        WebViewInitData {
            url: Some(url.to_owned()),
            id: Some(id.to_owned()),
            style: None,
            javascript_enabled: None,
            devtools: None,
            user_agent: None,
            autoplay: None,
            initialization_scripts: None,
            headers: None,
            html: None,
            transparent: None,
        }
    }
}

/// Why a web view could not be made or reached.
#[derive(Debug, Clone, Copy, PartialEq, Eq, Structural)]
pub enum WebviewError {
    /// The builder was given no tag.
    MissingTag,
    /// The host's helper object or the main thread is not there.
    CreateFailed,
    /// The call was made before the main thread was known.
    NoMainThreadEnv,
}

impl WebviewError {
    /// The text of the error, as a character sequence.
    pub open spec fn spec_reason(self) -> Seq<char> {
        match self {
            WebviewError::MissingTag => "WebTag should be provided"@,
            WebviewError::CreateFailed => "Failed to create webview"@,
            WebviewError::NoMainThreadEnv => "Failed to get main thread env"@,
        }
    }

    /// The text of the error.
    pub fn reason(&self) -> (r: &'static str)
        ensures
            r@ == self.spec_reason(),
    {
        match self {
            WebviewError::MissingTag => "WebTag should be provided",
            WebviewError::CreateFailed => "Failed to create webview",
            WebviewError::NoMainThreadEnv => "Failed to get main thread env",
        }
    }
}

/// What the ability can ask of a web view that exists.
#[derive(Debug, Clone, Copy, PartialEq, Eq, Structural)]
pub enum WebviewCall {
    Url,
    LoadUrl,
    LoadHtml,
    SetZoom,
    Reload,
    Focus,
    EvaluateScript,
    CookiesWithUrl,
    SetBackgroundColor,
    SetVisible,
    ClearAllBrowsingData,
}

impl WebviewCall {
    /// The name of the host's function that answers the call.
    pub open spec fn spec_function(self) -> Seq<char> {
        match self {
            WebviewCall::Url => "getUrl"@,
            WebviewCall::LoadUrl => "loadUrl"@,
            WebviewCall::LoadHtml => "loadHtml"@,
            WebviewCall::SetZoom => "zoom"@,
            WebviewCall::Reload => "refresh"@,
            WebviewCall::Focus => "requestFocus"@,
            WebviewCall::EvaluateScript => "runJavaScript"@,
            WebviewCall::CookiesWithUrl => "getCookies"@,
            WebviewCall::SetBackgroundColor => "setBackgroundColor"@,
            WebviewCall::SetVisible => "setVisible"@,
            WebviewCall::ClearAllBrowsingData => "clearAllBrowsingData"@,
        }
    }

    /// The name of the host's function that answers the call.
    pub fn function(&self) -> (r: &'static str)
        ensures
            r@ == self.spec_function(),
    {
        match self {
            WebviewCall::Url => "getUrl",
            WebviewCall::LoadUrl => "loadUrl",
            WebviewCall::LoadHtml => "loadHtml",
            WebviewCall::SetZoom => "zoom",
            WebviewCall::Reload => "refresh",
            WebviewCall::Focus => "requestFocus",
            WebviewCall::EvaluateScript => "runJavaScript",
            WebviewCall::CookiesWithUrl => "getCookies",
            WebviewCall::SetBackgroundColor => "setBackgroundColor",
            WebviewCall::SetVisible => "setVisible",
            WebviewCall::ClearAllBrowsingData => "clearAllBrowsingData",
        }
    }

    /// The host's function to call, or the error where the main thread is
    /// not known yet.
    pub fn route(&self, main_thread_known: bool) -> (r: Result<&'static str, WebviewError>)
        ensures
            main_thread_known ==> (r matches Ok(name) && name@ == self.spec_function()),
            !main_thread_known ==> r == Err::<&'static str, WebviewError>(
                WebviewError::NoMainThreadEnv,
            ),
    {
        if main_thread_known {
            Ok(self.function())
        } else {
            Err(WebviewError::NoMainThreadEnv)
        }
    }
}

/// The text argument of a callback, or `fallback` where the host passed
/// none.
pub fn text_argument(argument: Either<String, ()>, fallback: &str) -> (r: String)
    ensures
        r@ == match argument {
            Either::A(text) => text@,
            Either::B(_) => fallback@,
        },
{
    match argument {
        Either::A(text) => text,
        Either::B(_) => fallback.to_owned(),
    }
}

/// The flag argument of a callback, false where the host passed none.
pub fn flag_argument(argument: Either<bool, ()>) -> (r: bool)
    ensures
        r == match argument {
            Either::A(flag) => flag,
            Either::B(_) => false,
        },
{
    match argument {
        Either::A(flag) => flag,
        Either::B(_) => false,
    }
}

/// The optional text argument of a callback.
pub fn optional_argument(argument: Either<String, ()>) -> (r: Option<String>)
    ensures
        r == match argument {
            Either::A(text) => Some(text),
            Either::B(_) => None::<String>,
        },
{
    match argument {
        Either::A(text) => Some(text),
        Either::B(_) => None,
    }
}

/// What the host hears back when a download is about to start: the
/// application's decision and the path it settled on.
pub fn download_start_result(allow: bool, temp_path: String) -> (r: DownloadStartResult)
    ensures
        r.allow == allow,
        r.temp_path == Some(temp_path),
{
    DownloadStartResult { allow, temp_path: Some(temp_path) }
}

} // verus!
