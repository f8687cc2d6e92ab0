//! From what the caller asks for to the request that goes out.

use vstd::prelude::*;
use crate::auth::{auth_header, authorization_header, opt_view};
use crate::error::ProxyError;
use crate::method::{method_of, request_method, HttpMethod};
use crate::text::{chars_of, string_of};
use crate::url::{resolve_url, resolved_url};

verus! {

/// What the caller asks for. Made anew for each call and never changed.
#[derive(Clone, Debug)]
pub struct ProxyRequest {
    /// Where the Jira instance lives. Tempo asks it only whether the site is
    /// a hosted one.
    pub base_url: String,
    /// The account that basic credentials are made for.
    pub email: String,
    /// The API token, the personal access token, or a complete header value.
    pub api_token: String,
    /// The path below the service's root, with its query if it has one.
    pub endpoint: String,
    /// The HTTP method, in any case; `GET` where it is missing or unknown.
    pub method: Option<String>,
    /// The JSON payload, sent whatever the method.
    pub body: Option<serde_json::Value>,
    /// Whether the request goes to Tempo; Jira where it is missing.
    pub is_tempo: Option<bool>,
    /// `basic` or `bearer`; anything else leaves the choice to the target.
    pub auth_type: Option<String>,
}

/// One header of the outgoing request.
#[derive(Clone, Debug, PartialEq, Eq)]
pub struct Header {
    pub name: String,
    pub value: String,
}

impl View for Header {
    type V = (Seq<char>, Seq<char>);

    open spec fn view(&self) -> (Seq<char>, Seq<char>) {
        (self.name@, self.value@)
    }
}

/// The request that goes out: all that the transport needs to send it.
#[derive(Clone, Debug)]
pub struct Outgoing {
    pub method: HttpMethod,
    pub url: String,
    /// The headers, in the order in which they are attached.
    pub headers: Vec<Header>,
    /// The JSON payload, if there is one.
    pub body: Option<serde_json::Value>,
}

/// The view of an optional string.
pub open spec fn text_of(s: Option<String>) -> Option<Seq<char>> {
    match s {
        Some(t) => Some(t@),
        None => None,
    }
}

/// The headers of a request, as names and values: authorization, the two
/// that declare JSON, the one that switches off Atlassian's XSRF check, and
/// for Tempo its API key.
pub open spec fn header_list(is_tempo: bool, authorization: Seq<char>, api_token: Seq<char>) -> Seq<
    (Seq<char>, Seq<char>),
> {
    let common = seq![
        ("Authorization"@, authorization),
        ("Accept"@, "application/json"@),
        ("Content-Type"@, "application/json"@),
        ("X-Atlassian-Token"@, "nocheck"@),
    ];
    if is_tempo {
        common.push(("X-Tempo-Api-Key"@, api_token))
    } else {
        common
    }
}

impl ProxyRequest {
    /// Whether the request goes to Tempo.
    pub open spec fn to_tempo(&self) -> bool {
        self.is_tempo == Some(true)
    }

    /// The URL that the request resolves to, if it resolves.
    pub open spec fn target(&self) -> Option<Seq<char>> {
        resolved_url(self.to_tempo(), self.base_url@, self.endpoint@)
    }

    /// The value of the `Authorization` header for a request to `url`.
    pub open spec fn authorization(&self, url: Seq<char>) -> Seq<char> {
        auth_header(self.to_tempo(), text_of(self.auth_type), self.email@, self.api_token@, url)
    }
}

impl Outgoing {
    /// The headers as names and values.
    pub open spec fn header_views(&self) -> Seq<(Seq<char>, Seq<char>)> {
        self.headers@.map_values(|h: Header| h@)
    }
}

fn as_slice(s: &Option<String>) -> (r: Option<&str>)
    ensures
        opt_view(r) == text_of(*s),
{
    match s {
        Some(t) => Some(t.as_str()),
        None => None,
    }
}

fn header(name: &str, value: String) -> (h: Header)
    ensures
        h@ == (name@, value@),
{
    Header { name: string_of(&chars_of(name)), value }
}

/// Turns what the caller asks for into the request that goes out. A Jira
/// request without a base URL is refused, and nothing is sent; every other
/// request is prepared.
pub fn prepare(req: ProxyRequest) -> (r: Result<Outgoing, ProxyError>)
    ensures
        match r {
            Ok(out) => {
                &&& req.target() == Some(out.url@)
                &&& out.method == method_of(text_of(req.method))
                &&& out.header_views() == header_list(
                    req.to_tempo(),
                    req.authorization(out.url@),
                    req.api_token@,
                )
                &&& out.body == req.body
            },
            Err(e) => e is InvalidInput && req.target() is None,
        },
{
    let is_tempo: bool = match req.is_tempo {
        Some(flag) => flag,
        None => false,
    };
    let url: String = match resolve_url(is_tempo, req.base_url.as_str(), req.endpoint.as_str()) {
        Ok(url) => url,
        Err(e) => {
            return Err(e);
        },
    };
    let method: HttpMethod = request_method(as_slice(&req.method));
    let authorization: String = authorization_header(
        is_tempo,
        as_slice(&req.auth_type),
        req.email.as_str(),
        req.api_token.as_str(),
        url.as_str(),
    );
    let mut headers: Vec<Header> = Vec::new();
    headers.push(header("Authorization", authorization));
    headers.push(header("Accept", string_of(&chars_of("application/json"))));
    headers.push(header("Content-Type", string_of(&chars_of("application/json"))));
    headers.push(header("X-Atlassian-Token", string_of(&chars_of("nocheck"))));
    if is_tempo {
        headers.push(header("X-Tempo-Api-Key", req.api_token.clone()));
    }
    let out = Outgoing { method, url, headers, body: req.body };
    assert(out.header_views() =~= header_list(
        req.to_tempo(),
        req.authorization(out.url@),
        req.api_token@,
    ));
    Ok(out)
}

} // verus!
