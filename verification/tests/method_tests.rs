use jira_proxy::method::{method_from_upper, request_method, HttpMethod};

#[test]
fn missing_method_is_get() {
    assert_eq!(request_method(None), HttpMethod::Get);
}

#[test]
fn methods_in_any_case() {
    assert_eq!(request_method(Some("GET")), HttpMethod::Get);
    assert_eq!(request_method(Some("post")), HttpMethod::Post);
    assert_eq!(request_method(Some("Put")), HttpMethod::Put);
    assert_eq!(request_method(Some("dElEtE")), HttpMethod::Delete);
}

#[test]
fn unknown_method_falls_back_to_get() {
    assert_eq!(request_method(Some("PATCH")), HttpMethod::Get);
    assert_eq!(request_method(Some("")), HttpMethod::Get);
    assert_eq!(request_method(Some(" POST")), HttpMethod::Get);
    assert_eq!(request_method(Some("POSTS")), HttpMethod::Get);
}

#[test]
fn upper_case_follows_unicode() {
    assert_eq!(request_method(Some("po\u{17f}t")), HttpMethod::Post);
}

#[test]
fn upper_case_names_only() {
    assert_eq!(method_from_upper("POST"), HttpMethod::Post);
    assert_eq!(method_from_upper("PUT"), HttpMethod::Put);
    assert_eq!(method_from_upper("DELETE"), HttpMethod::Delete);
    assert_eq!(method_from_upper("GET"), HttpMethod::Get);
    assert_eq!(method_from_upper("post"), HttpMethod::Get);
}

#[test]
fn method_names() {
    assert_eq!(HttpMethod::Get.name(), "GET");
    assert_eq!(HttpMethod::Post.name(), "POST");
    assert_eq!(HttpMethod::Put.name(), "PUT");
    assert_eq!(HttpMethod::Delete.name(), "DELETE");
    for m in [HttpMethod::Get, HttpMethod::Post, HttpMethod::Put, HttpMethod::Delete] {
        assert_eq!(method_from_upper(m.name()), m);
    }
}
