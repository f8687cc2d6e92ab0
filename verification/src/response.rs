//! What an answer means: nothing to read, a failure to report, or a JSON
//! document to hand back.

use vstd::prelude::*;
use crate::error::ProxyError;

verus! {

#[verifier::external_type_specification]
#[verifier::external_body]
pub struct ExJsonValue(serde_json::Value);

#[verifier::external_type_specification]
#[verifier::external_body]
pub struct ExJsonError(serde_json::Error);

/// What to do with the body of an answer.
#[derive(Clone, Copy, Debug, PartialEq, Eq, Structural)]
pub enum BodyUse {
    /// The answer has no content: the result is the null value.
    Ignore,
    /// The answer is a failure: its body is reported as text.
    Report,
    /// The answer is a success: its body is parsed as JSON.
    Parse,
}

/// What to do with the body of an answer of this status: 204 has none, any
/// other 2xx holds the document, and everything else is a failure.
pub open spec fn body_use_of(status: u16) -> BodyUse {
    if status == 204 {
        BodyUse::Ignore
    } else if 200 <= status < 300 {
        BodyUse::Parse
    } else {
        BodyUse::Report
    }
}

/// The value that `serde_json::from_slice` reads from `bytes`, if it reads one.
pub uninterp spec fn json_value(bytes: Seq<u8>) -> Option<serde_json::Value>;

/// The bytes of the JSON text `null`.
pub open spec fn null_text() -> Seq<u8> {
    seq![0x6eu8, 0x75u8, 0x6cu8, 0x6cu8]
}

/// `serde_json::from_slice` for a `Value`: the value that the bytes hold as
/// JSON text, or the parser's error. The outcome depends on the bytes alone.
#[verifier::external_body]
fn parse_json(bytes: &[u8]) -> (r: Result<serde_json::Value, serde_json::Error>)
    ensures
        match r {
            Ok(v) => json_value(bytes@) == Some(v),
            Err(_) => json_value(bytes@) is None,
        },
{
    serde_json::from_slice::<serde_json::Value>(bytes)
}

/// `Value::Null` of serde_json: the value that the JSON text `null` holds.
#[verifier::external_body]
fn json_null() -> (v: serde_json::Value)
    ensures
        json_value(null_text()) == Some(v),
{
    serde_json::Value::Null
}

/// The `Display` text of a `serde_json::Error`: the parser's own description
/// of what went wrong, and where.
#[verifier::external_body]
fn describe(e: &serde_json::Error) -> (r: String) {
    e.to_string()
}

/// What to do with the body of an answer of this status.
pub fn body_use(status: u16) -> (r: BodyUse)
    ensures
        r == body_use_of(status),
{
    if status == 204 {
        BodyUse::Ignore
    } else if 200 <= status && status < 300 {
        BodyUse::Parse
    } else {
        BodyUse::Report
    }
}

/// The result of a call whose answer has no content: the null value.
pub fn empty_result() -> (v: serde_json::Value)
    ensures
        json_value(null_text()) == Some(v),
{
    json_null()
}

/// The failure that a status outside 2xx ends the call with. A body that
/// could not be read counts as empty.
pub fn upstream_failure(status: u16, body: Option<String>) -> (e: ProxyError)
    ensures
        e matches ProxyError::Upstream { status: s, body: b } && s == status && b@ == (match body {
            Some(text) => text@,
            None => Seq::<char>::empty(),
        }),
{
    match body {
        Some(text) => ProxyError::Upstream { status, body: text },
        None => ProxyError::Upstream { status, body: String::new() },
    }
}

/// The failure that a request ends with when it never got an answer.
pub fn network_failure(description: String) -> (e: ProxyError)
    ensures
        e matches ProxyError::Network(d) && d@ == description@,
{
    ProxyError::Network(description)
}

/// The result of a call from what the parser made of the body: its value, or
/// a decoding failure with the parser's description.
pub fn decoded(parsed: Result<serde_json::Value, serde_json::Error>) -> (r: Result<
    serde_json::Value,
    ProxyError,
>)
    ensures
        match parsed {
            Ok(v) => r == Ok::<serde_json::Value, ProxyError>(v),
            Err(_) => r matches Err(e) && e is Decode,
        },
{
    match parsed {
        Ok(v) => Ok(v),
        Err(e) => Err(ProxyError::Decode(describe(&e))),
    }
}

/// The result of a call whose answer is a success with content: the JSON
/// document in the body, or a decoding failure where the body holds none.
pub fn decode_body(bytes: &[u8]) -> (r: Result<serde_json::Value, ProxyError>)
    ensures
        match r {
            Ok(v) => json_value(bytes@) == Some(v),
            Err(e) => e is Decode && json_value(bytes@) is None,
        },
{
    decoded(parse_json(bytes))
}

} // verus!
