use jira_proxy::error::{decimal_digits, ProxyError};
use jira_proxy::response::{
    body_use, decode_body, decoded, empty_result, network_failure, upstream_failure, BodyUse,
};

#[test]
fn no_content_gives_null() {
    assert_eq!(body_use(204), BodyUse::Ignore);
    assert!(empty_result().is_null());
    assert_eq!(empty_result(), serde_json::from_slice::<serde_json::Value>(b"null").unwrap());
}

#[test]
fn not_found_is_reported_with_status_and_body() {
    assert_eq!(body_use(404), BodyUse::Report);
    let e = upstream_failure(404, Some("{\"errorMessages\":[\"not found\"]}".to_string()));
    assert_eq!(e.message(), "Jira Error (404): {\"errorMessages\":[\"not found\"]}");
}

#[test]
fn unreadable_body_counts_as_empty() {
    let e = upstream_failure(500, None);
    assert!(matches!(&e, ProxyError::Upstream { status: 500, body } if body.is_empty()));
    assert_eq!(e.message(), "Jira Error (500): ");
}

#[test]
fn status_classes() {
    assert_eq!(body_use(200), BodyUse::Parse);
    assert_eq!(body_use(201), BodyUse::Parse);
    assert_eq!(body_use(299), BodyUse::Parse);
    assert_eq!(body_use(199), BodyUse::Report);
    assert_eq!(body_use(300), BodyUse::Report);
    assert_eq!(body_use(301), BodyUse::Report);
    assert_eq!(body_use(401), BodyUse::Report);
    assert_eq!(body_use(503), BodyUse::Report);
    assert_eq!(body_use(0), BodyUse::Report);
    assert_eq!(body_use(u16::MAX), BodyUse::Report);
}

#[test]
fn document_is_decoded() {
    let v = decode_body(b"{\"key\":\"ABC-1\",\"fields\":{\"n\":[1,2,3]}}").unwrap();
    assert_eq!(v["key"], "ABC-1");
    assert_eq!(v["fields"]["n"][2], 3);
    assert!(decode_body(b" null ").unwrap().is_null());
}

#[test]
fn broken_document_is_a_decode_failure() {
    let e = decode_body(b"{\"key\":").unwrap_err();
    assert!(matches!(e, ProxyError::Decode(_)));
    assert_eq!(e.message(), "EOF while parsing a value at line 1 column 7");
    let e = decode_body(b"").unwrap_err();
    assert_eq!(e.message(), "EOF while parsing a value at line 1 column 0");
    assert!(matches!(decode_body(b"<html>"), Err(ProxyError::Decode(_))));
}

#[test]
fn parser_outcome_is_handed_on() {
    let ok = decoded(serde_json::from_str::<serde_json::Value>("[true]"));
    assert_eq!(ok.unwrap()[0], true);
    let bad = serde_json::from_str::<serde_json::Value>("[true");
    let text = bad.as_ref().unwrap_err().to_string();
    assert_eq!(decoded(bad).unwrap_err().message(), text);
}

#[test]
fn network_failure_keeps_its_description() {
    let e = network_failure("connection reset".to_string());
    assert!(matches!(&e, ProxyError::Network(d) if d == "connection reset"));
    assert_eq!(e.message(), "connection reset");
}

#[test]
fn invalid_input_message() {
    assert_eq!(ProxyError::InvalidInput.message(), "URL Jiry jest wymagany");
}

#[test]
fn decimal_text() {
    assert_eq!(decimal_digits(0), vec!['0']);
    assert_eq!(decimal_digits(7), vec!['7']);
    assert_eq!(decimal_digits(10), vec!['1', '0']);
    assert_eq!(decimal_digits(204), vec!['2', '0', '4']);
    assert_eq!(decimal_digits(65535), vec!['6', '5', '5', '3', '5']);
    for n in [0u16, 9, 99, 100, 404, 1000, 12345, 65535] {
        assert_eq!(decimal_digits(n).into_iter().collect::<String>(), n.to_string());
    }
}
