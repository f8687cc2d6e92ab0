//! How a request authenticates: the value of its `Authorization` header.

use base64::engine::general_purpose::STANDARD;
use base64::Engine;
use vstd::prelude::*;
use vstd::utf8::encode_utf8;
use crate::text::{
    begins_with, chars_of, joined, same_chars, starts_with, string_of, trim, trimmed,
};
use crate::url::{is_cloud, points_at_cloud};

verus! {

/// The two ways to authenticate against Jira.
#[derive(Clone, Copy, Debug, PartialEq, Eq, Structural)]
pub enum AuthScheme {
    /// Email and API token, base64-encoded.
    Basic,
    /// A personal access token as it is.
    Bearer,
}

/// The base64 encoding of `bytes`, standard alphabet, padded.
pub uninterp spec fn base64_standard(bytes: Seq<u8>) -> Seq<char>;

/// The header value that presents email and token as basic credentials.
pub open spec fn basic_credentials(email: Seq<char>, token: Seq<char>) -> Seq<char> {
    "Basic "@ + base64_standard(encode_utf8(email + ":"@ + token))
}

/// The header value that presents a token as a bearer token.
pub open spec fn bearer_credentials(token: Seq<char>) -> Seq<char> {
    "Bearer "@ + token
}

/// Whether a token is a complete header value already.
pub open spec fn is_preformatted(token: Seq<char>) -> bool {
    starts_with(token, "Basic "@) || starts_with(token, "Bearer "@)
}

/// The scheme for a target of which the caller said nothing: a self-hosted
/// instance takes a bearer token, the hosted service basic credentials.
pub open spec fn inferred_scheme(target_url: Seq<char>) -> AuthScheme {
    if is_cloud(target_url) {
        AuthScheme::Basic
    } else {
        AuthScheme::Bearer
    }
}

/// The scheme for a Jira request: what the caller asked for, `basic` or
/// `bearer`, else what the target suggests.
pub open spec fn chosen_scheme(auth_type: Option<Seq<char>>, target_url: Seq<char>) -> AuthScheme {
    if auth_type == Some("basic"@) {
        AuthScheme::Basic
    } else if auth_type == Some("bearer"@) {
        AuthScheme::Bearer
    } else {
        inferred_scheme(target_url)
    }
}

/// The header value that presents a trimmed token under a scheme.
pub open spec fn credentials(scheme: AuthScheme, email: Seq<char>, token: Seq<char>) -> Seq<
    char,
> {
    match scheme {
        AuthScheme::Basic => basic_credentials(email, token),
        AuthScheme::Bearer => bearer_credentials(token),
    }
}

/// The value of the `Authorization` header.
pub open spec fn auth_header(
    is_tempo: bool,
    auth_type: Option<Seq<char>>,
    email: Seq<char>,
    api_token: Seq<char>,
    target_url: Seq<char>,
) -> Seq<char> {
    if is_tempo {
        bearer_credentials(api_token)
    } else if is_preformatted(trimmed(api_token)) {
        trimmed(api_token)
    } else {
        credentials(chosen_scheme(auth_type, target_url), email, trimmed(api_token))
    }
}

/// The view of an optional string slice.
pub open spec fn opt_view(s: Option<&str>) -> Option<Seq<char>> {
    match s {
        Some(t) => Some(t@),
        None => None,
    }
}

/// `Engine::encode` of base64, on its `STANDARD` engine: the base64 text of
/// the bytes, in the standard alphabet with padding. The text depends on the
/// bytes alone.
#[verifier::external_body]
fn encode_base64(bytes: &[u8]) -> (r: String)
    ensures
        r@ == base64_standard(bytes@),
{
    STANDARD.encode(bytes)
}

/// The scheme that the target suggests.
pub fn infer_scheme(target_url: &str) -> (s: AuthScheme)
    ensures
        s == inferred_scheme(target_url@),
{
    if points_at_cloud(target_url) {
        AuthScheme::Basic
    } else {
        AuthScheme::Bearer
    }
}

/// The scheme for a Jira request.
pub fn choose_scheme(auth_type: Option<&str>, target_url: &str) -> (s: AuthScheme)
    ensures
        s == chosen_scheme(opt_view(auth_type), target_url@),
{
    match auth_type {
        Some(asked) => {
            let asked: Vec<char> = chars_of(asked);
            if same_chars(&asked, &chars_of("basic")) {
                AuthScheme::Basic
            } else if same_chars(&asked, &chars_of("bearer")) {
                AuthScheme::Bearer
            } else {
                infer_scheme(target_url)
            }
        },
        None => infer_scheme(target_url),
    }
}

/// The header value that presents an encoded pair as basic credentials.
pub fn basic_value(encoded: &str) -> (r: String)
    ensures
        r@ == "Basic "@ + encoded@,
{
    string_of(&joined(&chars_of("Basic "), &chars_of(encoded)))
}

/// The header value that presents a token as a bearer token.
pub fn bearer_value(token: &str) -> (r: String)
    ensures
        r@ == bearer_credentials(token@),
{
    string_of(&joined(&chars_of("Bearer "), &chars_of(token)))
}

/// Email and token as basic credentials pair them: with a colon between.
pub fn credential_pair(email: &str, token: &str) -> (r: String)
    ensures
        r@ == email@ + ":"@ + token@,
{
    string_of(&joined(&joined(&chars_of(email), &chars_of(":")), &chars_of(token)))
}

/// The header value that presents a trimmed token under a scheme.
pub fn credentials_for(scheme: AuthScheme, email: &str, token: &str) -> (r: String)
    ensures
        r@ == credentials(scheme, email@, token@),
{
    match scheme {
        AuthScheme::Basic => {
            let pair: String = credential_pair(email, token);
            let encoded: String = encode_base64(pair.as_str().as_bytes());
            basic_value(encoded.as_str())
        },
        AuthScheme::Bearer => bearer_value(token),
    }
}

/// The value of the `Authorization` header. Tempo takes the token as a
/// bearer token, as it came. For Jira the token is trimmed; one that is a
/// complete header value already passes as it is; any other is presented
/// under the scheme chosen for the request.
pub fn authorization_header(
    is_tempo: bool,
    auth_type: Option<&str>,
    email: &str,
    api_token: &str,
    target_url: &str,
) -> (r: String)
    ensures
        r@ == auth_header(is_tempo, opt_view(auth_type), email@, api_token@, target_url@),
{
    if is_tempo {
        return bearer_value(api_token);
    }
    let token: Vec<char> = trim(&chars_of(api_token));
    if begins_with(&token, &chars_of("Basic ")) || begins_with(&token, &chars_of("Bearer ")) {
        string_of(&token)
    } else {
        let scheme: AuthScheme = choose_scheme(auth_type, target_url);
        credentials_for(scheme, email, string_of(&token).as_str())
    }
}

} // verus!
