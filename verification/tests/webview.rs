use http::header::HeaderValue;
use http::HeaderMap;
use napi_ohos::Either;
use openharmony_ability::helper::webview::{
    download_start_result, flag_argument, optional_argument, text_argument,
};
use openharmony_ability::{
    DownloadStartResult, WebViewBuilder, WebViewInitData, WebViewStyle, WebviewCall, WebviewError,
};

#[test]
fn builder_starts_empty() {
    let builder = WebViewBuilder::new();
    assert!(builder.url.is_none());
    assert!(builder.style.is_none());
    assert!(builder.javascript_enabled.is_none());
    assert!(builder.devtools.is_none());
    assert!(builder.user_agent.is_none());
    assert!(builder.autoplay.is_none());
    assert!(builder.initialization_scripts.is_none());
    assert!(builder.headers.is_none());
    assert!(builder.html.is_none());
    assert!(builder.transparent.is_none());
    assert!(builder.id.is_none());
    assert!(WebViewBuilder::default().id.is_none());
}

#[test]
fn build_without_tag_fails() {
    let result = WebViewBuilder::new().url(String::from("https://example.org")).build(true, true);
    assert_eq!(result.unwrap_err(), WebviewError::MissingTag);
    let result = WebViewBuilder::new().build(false, false);
    assert_eq!(result.unwrap_err(), WebviewError::MissingTag);
}

#[test]
fn build_without_host_fails() {
    let tagged = || WebViewBuilder::new().id(String::from("main"));
    assert_eq!(tagged().build(false, true).unwrap_err(), WebviewError::CreateFailed);
    assert_eq!(tagged().build(true, false).unwrap_err(), WebviewError::CreateFailed);
    assert_eq!(tagged().build(false, false).unwrap_err(), WebviewError::CreateFailed);
}

#[test]
fn build_hands_over_everything_that_was_set() {
    let mut headers = HeaderMap::new();
    headers.insert("x-token", HeaderValue::from_static("abc"));
    let style = WebViewStyle {
        x: Some(Either::A(12.5f64.to_bits())),
        y: Some(Either::B(String::from("50%"))),
        visible: Some(true),
        background_color: Some(String::from("#ffffff")),
    };
    let data = WebViewBuilder::new()
        .id(String::from("main"))
        .url(String::from("https://example.org"))
        .style(style)
        .javascript_enabled(true)
        .devtools(false)
        .user_agent(String::from("agent/1.0"))
        .autoplay(true)
        .initialization_scripts(vec![String::from("console.log(1)")])
        .headers(headers)
        .html(String::from("<p>hi</p>"))
        .transparent(true)
        .build(true, true)
        .unwrap();
    assert_eq!(data.id.as_deref(), Some("main"));
    assert_eq!(data.url.as_deref(), Some("https://example.org"));
    assert_eq!(data.javascript_enabled, Some(true));
    assert_eq!(data.devtools, Some(false));
    assert_eq!(data.user_agent.as_deref(), Some("agent/1.0"));
    assert_eq!(data.autoplay, Some(true));
    assert_eq!(data.initialization_scripts, Some(vec![String::from("console.log(1)")]));
    assert_eq!(data.html.as_deref(), Some("<p>hi</p>"));
    assert_eq!(data.transparent, Some(true));
    let style = data.style.unwrap();
    assert!(matches!(style.x, Some(Either::A(bits)) if f64::from_bits(bits) == 12.5));
    assert!(matches!(style.y, Some(Either::B(ref text)) if text == "50%"));
    assert_eq!(style.visible, Some(true));
    assert_eq!(style.background_color.as_deref(), Some("#ffffff"));
    let fields = data.headers.unwrap();
    assert_eq!(fields.get(&String::from("x-token")), Some(String::from("abc")));
    assert_eq!(fields.len(), 1);
}

#[test]
fn later_setting_replaces_earlier() {
    let data = WebViewBuilder::new()
        .id(String::from("one"))
        .id(String::from("two"))
        .devtools(true)
        .devtools(false)
        .build(true, true)
        .unwrap();
    assert_eq!(data.id.as_deref(), Some("two"));
    assert_eq!(data.devtools, Some(false));
    assert!(data.url.is_none());
}

#[test]
fn init_data_for_url() {
    let data = WebViewInitData::for_url("https://example.org");
    assert_eq!(data.url.as_deref(), Some("https://example.org"));
    assert!(data.id.is_none());
    assert!(data.style.is_none() && data.headers.is_none() && data.html.is_none());
    let data = WebViewInitData::for_url_with_id("https://example.org", "side");
    assert_eq!(data.url.as_deref(), Some("https://example.org"));
    assert_eq!(data.id.as_deref(), Some("side"));
    assert!(data.javascript_enabled.is_none() && data.devtools.is_none());
    assert!(data.user_agent.is_none() && data.autoplay.is_none());
    assert!(data.initialization_scripts.is_none() && data.transparent.is_none());
}

#[test]
fn style_and_download_defaults() {
    let style = WebViewStyle::default();
    assert!(style.x.is_none() && style.y.is_none());
    assert!(style.visible.is_none() && style.background_color.is_none());
    let result = DownloadStartResult::default();
    assert!(!result.allow);
    assert!(result.temp_path.is_none());
}

#[test]
fn error_reasons() {
    assert_eq!(WebviewError::MissingTag.reason(), "WebTag should be provided");
    assert_eq!(WebviewError::CreateFailed.reason(), "Failed to create webview");
    assert_eq!(WebviewError::NoMainThreadEnv.reason(), "Failed to get main thread env");
}

#[test]
fn webview_calls_name_host_functions() {
    assert_eq!(WebviewCall::Url.function(), "getUrl");
    assert_eq!(WebviewCall::LoadUrl.function(), "loadUrl");
    assert_eq!(WebviewCall::LoadHtml.function(), "loadHtml");
    assert_eq!(WebviewCall::SetZoom.function(), "zoom");
    assert_eq!(WebviewCall::Reload.function(), "refresh");
    assert_eq!(WebviewCall::Focus.function(), "requestFocus");
    assert_eq!(WebviewCall::EvaluateScript.function(), "runJavaScript");
    assert_eq!(WebviewCall::CookiesWithUrl.function(), "getCookies");
    assert_eq!(WebviewCall::SetBackgroundColor.function(), "setBackgroundColor");
    assert_eq!(WebviewCall::SetVisible.function(), "setVisible");
    assert_eq!(WebviewCall::ClearAllBrowsingData.function(), "clearAllBrowsingData");
}

#[test]
fn webview_call_needs_main_thread() {
    assert_eq!(WebviewCall::Reload.route(true), Ok("refresh"));
    assert_eq!(WebviewCall::Reload.route(false), Err(WebviewError::NoMainThreadEnv));
    assert_eq!(WebviewCall::Url.route(false), Err(WebviewError::NoMainThreadEnv));
}

#[test]
fn callback_arguments_have_fallbacks() {
    assert_eq!(text_argument(Either::A(String::from("title")), ""), "title");
    assert_eq!(text_argument(Either::B(()), ""), "");
    assert_eq!(text_argument(Either::B(()), "undefined"), "undefined");
    assert_eq!(text_argument(Either::A(String::new()), "undefined"), "");
    assert!(flag_argument(Either::A(true)));
    assert!(!flag_argument(Either::A(false)));
    assert!(!flag_argument(Either::B(())));
    assert_eq!(optional_argument(Either::A(String::from("/tmp/a"))), Some(String::from("/tmp/a")));
    assert_eq!(optional_argument(Either::B(())), None);
}

#[test]
fn download_start_result_carries_decision_and_path() {
    let result = download_start_result(true, String::from("/data/tmp/file"));
    assert!(result.allow);
    assert_eq!(result.temp_path.as_deref(), Some("/data/tmp/file"));
    let result = download_start_result(false, String::new());
    assert!(!result.allow);
    assert_eq!(result.temp_path.as_deref(), Some(""));
}
