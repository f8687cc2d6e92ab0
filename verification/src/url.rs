//! Where a request goes: the absolute URL for a base URL and an endpoint.

use vstd::prelude::*;
use crate::error::ProxyError;
use crate::text::{
    begins_with, chars_of, contains, includes, joined, replace_all, replaced, slash_prefixed,
    starts_with, string_of, strip_trailing, with_leading_slash, without_trailing,
};

verus! {

/// A URL of the hosted service names this domain.
pub open spec fn cloud_domain() -> Seq<char> {
    ".atlassian.net"@
}

/// Whether `url` points at the hosted service.
pub open spec fn is_cloud(url: Seq<char>) -> bool {
    contains(url, cloud_domain())
}

/// The Tempo host that serves the site at `base`.
pub open spec fn tempo_host(base: Seq<char>) -> Seq<char> {
    if is_cloud(base) {
        "api.eu.tempo.io"@
    } else {
        "api.tempo.io"@
    }
}

/// The URL of a Tempo request.
pub open spec fn tempo_url(base: Seq<char>, endpoint: Seq<char>) -> Seq<char> {
    "https://"@ + tempo_host(base) + slash_prefixed(endpoint)
}

/// A base URL with a scheme and without slashes at its end.
pub open spec fn normalized_base(base: Seq<char>) -> Seq<char> {
    if starts_with(base, "http"@) {
        strip_trailing(base, '/')
    } else {
        "https://"@ + strip_trailing(base, '/')
    }
}

/// An endpoint as a self-hosted instance knows it: the search of version 3
/// becomes the search of version 2, then every other path of version 3
/// becomes a path of version 2.
pub open spec fn server_endpoint(endpoint: Seq<char>) -> Seq<char> {
    replace_all(
        replace_all(endpoint, "/rest/api/3/search/jql"@, "/rest/api/2/search"@),
        "/rest/api/3/"@,
        "/rest/api/2/"@,
    )
}

/// The endpoint that the instance at the normalized base URL `base` is asked for.
pub open spec fn effective_endpoint(base: Seq<char>, endpoint: Seq<char>) -> Seq<char> {
    if is_cloud(base) {
        endpoint
    } else {
        server_endpoint(endpoint)
    }
}

/// `url` with the query parameter `os_authType=basic`, unless it names
/// `os_authType` already.
pub open spec fn with_auth_param(url: Seq<char>) -> Seq<char> {
    if contains(url, "os_authType"@) {
        url
    } else if url.contains('?') {
        url + "&"@ + "os_authType=basic"@
    } else {
        url + "?"@ + "os_authType=basic"@
    }
}

/// The URL of a Jira request.
pub open spec fn jira_url(base: Seq<char>, endpoint: Seq<char>) -> Seq<char> {
    let site = normalized_base(base);
    with_auth_param(site + slash_prefixed(effective_endpoint(site, endpoint)))
}

/// The URL that a request resolves to, if it resolves.
pub open spec fn resolved_url(is_tempo: bool, base: Seq<char>, endpoint: Seq<char>) -> Option<
    Seq<char>,
> {
    if is_tempo {
        Some(tempo_url(base, endpoint))
    } else if base.len() == 0 {
        None
    } else {
        Some(jira_url(base, endpoint))
    }
}

/// Whether `c` stands in `s`.
fn has_char(s: &Vec<char>, c: char) -> (b: bool)
    ensures
        b == s@.contains(c),
{
    let mut i: usize = 0;
    while i < s.len()
        invariant
            i <= s.len(),
            forall|j: int| 0 <= j < i ==> s@[j] != c,
        decreases s.len() - i,
    {
        if s[i] == c {
            return true;
        }
        i += 1;
    }
    false
}

fn normalize_chars(base: &Vec<char>) -> (r: Vec<char>)
    ensures
        r@ == normalized_base(base@),
{
    let bare: Vec<char> = without_trailing(base, '/');
    if begins_with(base, &chars_of("http")) {
        bare
    } else {
        joined(&chars_of("https://"), &bare)
    }
}

fn server_endpoint_chars(endpoint: &Vec<char>) -> (r: Vec<char>)
    ensures
        r@ == server_endpoint(endpoint@),
{
    let searched: Vec<char> = replaced(
        endpoint,
        &chars_of("/rest/api/3/search/jql"),
        &chars_of("/rest/api/2/search"),
    );
    replaced(&searched, &chars_of("/rest/api/3/"), &chars_of("/rest/api/2/"))
}

fn with_auth_param_chars(url: Vec<char>) -> (r: Vec<char>)
    ensures
        r@ == with_auth_param(url@),
{
    if includes(&url, &chars_of("os_authType")) {
        url
    } else {
        let sep: Vec<char> = if has_char(&url, '?') {
            chars_of("&")
        } else {
            chars_of("?")
        };
        joined(&joined(&url, &sep), &chars_of("os_authType=basic"))
    }
}

/// Whether `url` points at the hosted service.
pub fn points_at_cloud(url: &str) -> (b: bool)
    ensures
        b == is_cloud(url@),
{
    includes(&chars_of(url), &chars_of(".atlassian.net"))
}

/// Gives a base URL its scheme, `https://` unless it starts with `http`, and
/// strips the slashes at its end.
pub fn normalize_base_url(base_url: &str) -> (r: String)
    ensures
        r@ == normalized_base(base_url@),
{
    string_of(&normalize_chars(&chars_of(base_url)))
}

/// Rewrites an endpoint of API version 3 for a self-hosted instance, which
/// serves version 2 only.
pub fn rewrite_for_server(endpoint: &str) -> (r: String)
    ensures
        r@ == server_endpoint(endpoint@),
{
    string_of(&server_endpoint_chars(&chars_of(endpoint)))
}

/// Resolves the absolute URL of a request. A Jira request without a base URL
/// is refused; every other request resolves.
pub fn resolve_url(is_tempo: bool, base_url: &str, endpoint: &str) -> (r: Result<
    String,
    ProxyError,
>)
    ensures
        match r {
            Ok(url) => resolved_url(is_tempo, base_url@, endpoint@) == Some(url@),
            Err(e) => e is InvalidInput && resolved_url(is_tempo, base_url@, endpoint@) is None,
        },
{
    let base: Vec<char> = chars_of(base_url);
    let path: Vec<char> = chars_of(endpoint);
    if is_tempo {
        let host: Vec<char> = if includes(&base, &chars_of(".atlassian.net")) {
            chars_of("api.eu.tempo.io")
        } else {
            chars_of("api.tempo.io")
        };
        let origin: Vec<char> = joined(&chars_of("https://"), &host);
        Ok(string_of(&joined(&origin, &with_leading_slash(&path))))
    } else if base.len() == 0 {
        Err(ProxyError::InvalidInput)
    } else {
        let site: Vec<char> = normalize_chars(&base);
        let asked: Vec<char> = if includes(&site, &chars_of(".atlassian.net")) {
            path
        } else {
            server_endpoint_chars(&path)
        };
        let plain: Vec<char> = joined(&site, &with_leading_slash(&asked));
        Ok(string_of(&with_auth_param_chars(plain)))
    }
}

} // verus!
