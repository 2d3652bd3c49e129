use napi_ohos::Either;
use openharmony_ability::helper::output_codes;
use openharmony_ability::{PermissionError, PermissionRequest, PermissionRequestCode};

fn names(list: &[&str]) -> Vec<String> {
    list.iter().map(|name| name.to_string()).collect()
}

#[test]
fn permissions_of_single() {
    let request = PermissionRequest::Single(String::from("ohos.permission.CAMERA"));
    assert_eq!(request.permissions(), names(&["ohos.permission.CAMERA"]));
}

#[test]
fn permissions_of_multiple_keep_order() {
    let list = names(&["ohos.permission.MICROPHONE", "ohos.permission.CAMERA"]);
    let request = PermissionRequest::Multiple(list.clone());
    assert_eq!(request.permissions(), list);
    assert_eq!(PermissionRequest::Multiple(vec![]).permissions(), Vec::<String>::new());
}

#[test]
fn into_input_keeps_the_shape() {
    match PermissionRequest::Single(String::from("a")).into_input() {
        Either::A(name) => assert_eq!(name, "a"),
        Either::B(_) => panic!("one name expected"),
    }
    match PermissionRequest::Multiple(names(&["a", "b"])).into_input() {
        Either::B(list) => assert_eq!(list, names(&["a", "b"])),
        Either::A(_) => panic!("a list expected"),
    }
}

#[test]
fn request_from_values() {
    assert_eq!(
        PermissionRequest::from(String::from("a")),
        PermissionRequest::Single(String::from("a"))
    );
    assert_eq!(
        PermissionRequest::from(names(&["a", "b"])),
        PermissionRequest::Multiple(names(&["a", "b"]))
    );
    assert_eq!(PermissionRequest::single("a"), PermissionRequest::Single(String::from("a")));
    assert_eq!(
        PermissionRequest::multiple(vec!["a", "b"]),
        PermissionRequest::Multiple(names(&["a", "b"]))
    );
}

#[test]
fn output_codes_of_both_shapes() {
    assert_eq!(output_codes(Either::A(-1)), vec![-1]);
    assert_eq!(output_codes(Either::B(vec![0, 2, -1])), vec![0, 2, -1]);
    assert_eq!(output_codes(Either::B(vec![])), Vec::<i32>::new());
}

#[test]
fn answer_pairs_each_permission_with_its_code() {
    let request = PermissionRequest::Multiple(names(&["a", "b", "c"]));
    let answered = request.answer(Either::B(vec![0, -1, 2])).unwrap();
    assert_eq!(
        answered,
        vec![
            PermissionRequestCode { permission: String::from("a"), code: 0 },
            PermissionRequestCode { permission: String::from("b"), code: -1 },
            PermissionRequestCode { permission: String::from("c"), code: 2 },
        ]
    );
}

#[test]
fn answer_to_single_request() {
    let request = PermissionRequest::single("a");
    assert_eq!(
        request.answer(Either::A(0)).unwrap(),
        vec![PermissionRequestCode { permission: String::from("a"), code: 0 }]
    );
    assert_eq!(
        request.answer(Either::B(vec![-1])).unwrap(),
        vec![PermissionRequestCode { permission: String::from("a"), code: -1 }]
    );
}

#[test]
fn answer_with_wrong_arity_is_an_error() {
    let request = PermissionRequest::Multiple(names(&["a", "b"]));
    assert_eq!(
        request.answer(Either::A(0)),
        Err(PermissionError::ArityMismatch { expected: 2, got: 1 })
    );
    assert_eq!(
        request.answer(Either::B(vec![0, 0, 0])),
        Err(PermissionError::ArityMismatch { expected: 2, got: 3 })
    );
    assert_eq!(
        PermissionRequest::single("a").answer(Either::B(vec![])),
        Err(PermissionError::ArityMismatch { expected: 1, got: 0 })
    );
}

#[test]
fn answer_to_empty_request() {
    let request = PermissionRequest::Multiple(vec![]);
    assert_eq!(request.answer(Either::B(vec![])), Ok(vec![]));
}
