use openharmony_ability::derive::{split_commas, AbilityArgs, RenderEntry};
use openharmony_ability::{AbilityError, Hooks};

fn names(list: &[&str]) -> Vec<String> {
    list.iter().map(|name| name.to_string()).collect()
}

#[test]
fn split_commas_between_names() {
    assert_eq!(split_commas("wry,custom,other"), names(&["wry", "custom", "other"]));
    assert_eq!(split_commas("wry"), names(&["wry"]));
}

#[test]
fn split_commas_keeps_empty_pieces() {
    assert_eq!(split_commas(""), names(&[""]));
    assert_eq!(split_commas(","), names(&["", ""]));
    assert_eq!(split_commas("a,"), names(&["a", ""]));
    assert_eq!(split_commas(",a"), names(&["", "a"]));
    assert_eq!(split_commas("a,,b"), names(&["a", "", "b"]));
}

#[test]
fn split_commas_agrees_with_std() {
    for text in ["", "a", "a,b", ",,", " a , b ", "协议,wry", "x,yz,,w,"] {
        let expected: Vec<String> = text.split(",").map(|piece| piece.to_string()).collect();
        assert_eq!(split_commas(text), expected);
        assert_eq!(split_commas(text).join(","), text);
    }
}

#[test]
fn plan_of_default_arguments() {
    let plan = AbilityArgs::default().plan();
    assert_eq!(plan.render, RenderEntry::XComponent);
    assert!(plan.protocols.is_empty());
    assert!(!plan.register_protocols);
}

#[test]
fn plan_of_webview_with_protocols() {
    let args = AbilityArgs { webview: true, protocol: Some(String::from("wry,custom,other")) };
    let plan = args.plan();
    assert_eq!(plan.render, RenderEntry::WebView);
    assert_eq!(plan.protocols, names(&["wry", "custom", "other"]));
    assert!(plan.register_protocols);
}

#[test]
fn plan_of_webview_without_protocols() {
    let plan = AbilityArgs { webview: true, protocol: None }.plan();
    assert_eq!(plan.render, RenderEntry::WebView);
    assert!(plan.protocols.is_empty());
    assert!(!plan.register_protocols);
}

#[test]
fn plan_of_protocols_without_webview() {
    let plan = AbilityArgs { webview: false, protocol: Some(String::from("wry")) }.plan();
    assert_eq!(plan.render, RenderEntry::XComponent);
    assert_eq!(plan.protocols, names(&["wry"]));
    assert!(!plan.register_protocols);
}

#[test]
fn error_message_quotes_what_was_tried() {
    let error = AbilityError::OnlyRunWithMainThread(String::from("exit"));
    assert_eq!(error.message(), "OpenHarmonyAbilityError: \"exit\" only run with main thread");
}

#[test]
fn error_message_escapes_like_debug() {
    let error = AbilityError::OnlyRunWithMainThread(String::from("say \"hi\"\n"));
    assert_eq!(
        error.message(),
        "OpenHarmonyAbilityError: \"say \\\"hi\\\"\\n\" only run with main thread"
    );
    let what = String::from("tab\there");
    let error = AbilityError::OnlyRunWithMainThread(what.clone());
    assert_eq!(
        error.message(),
        format!("OpenHarmonyAbilityError: {:?} only run with main thread", what)
    );
}

#[test]
fn hooks_are_all_alike() {
    assert_eq!(Hooks::new(), Hooks::default());
}
