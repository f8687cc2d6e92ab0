//! What holds of URL resolution.

use vstd::prelude::*;
use crate::text::{contains, occurs_at, replace_all, slash_prefixed, starts_with, strip_trailing};
use crate::text_laws::{
    lemma_contains_in_tail, lemma_replace_at_start, lemma_replace_keeps, lemma_replace_skips,
    lemma_replace_without_match, lemma_slash_prefixed_keeps, lemma_strip_trailing,
    lemma_strip_trailing_behind, lemma_strip_trailing_fixed, lemma_strip_trailing_keeps_prefix,
    lemma_strip_trailing_one_more,
};
use crate::url::{
    effective_endpoint, jira_url, normalized_base, resolved_url, server_endpoint, with_auth_param,
};

verus! {

/// A Jira request without a base URL resolves to nothing, whatever its
/// endpoint; every other request resolves.
pub proof fn lemma_resolves_unless_base_missing(
    is_tempo: bool,
    base: Seq<char>,
    endpoint: Seq<char>,
)
    ensures
        resolved_url(is_tempo, base, endpoint) is None <==> !is_tempo && base.len() == 0,
{
}

/// A base URL that starts with `http` and does not end in a slash is its own
/// normal form.
pub proof fn lemma_normal_base_is_fixed(base: Seq<char>)
    requires
        starts_with(base, "http"@),
        base.len() == 0 || base.last() != '/',
    ensures
        normalized_base(base) == base,
{
    lemma_strip_trailing_fixed(base, '/');
}

/// Normalizing a base URL twice is normalizing it once. A base URL without a
/// scheme that holds slashes only is left out: its normal form is the bare
/// scheme, whose own slashes the second pass would strip.
pub proof fn lemma_normalize_idempotent(base: Seq<char>)
    requires
        starts_with(base, "http"@) || strip_trailing(base, '/').len() > 0,
    ensures
        normalized_base(base).len() > 0,
        starts_with(normalized_base(base), "http"@),
        normalized_base(normalized_base(base)) == normalized_base(base),
{
    reveal_strlit("http");
    reveal_strlit("https://");
    let bare = strip_trailing(base, '/');
    lemma_strip_trailing(base, '/');
    if starts_with(base, "http"@) {
        assert(!"http"@.contains('/'));
        lemma_strip_trailing_keeps_prefix(base, "http"@, '/');
        lemma_strip_trailing_fixed(bare, '/');
    } else {
        let site = "https://"@ + bare;
        assert(site.subrange(0, 4) == "http"@);
        assert(site.last() == bare.last());
        lemma_strip_trailing_fixed(site, '/');
    }
}

/// A slash more at the end of a base URL changes nothing.
pub proof fn lemma_trailing_slash_ignored(base: Seq<char>)
    ensures
        normalized_base(base.push('/')) == normalized_base(base),
{
    reveal_strlit("http");
    lemma_strip_trailing_one_more(base, '/');
    let longer = base.push('/');
    if starts_with(longer, "http"@) {
        assert(longer.subrange(0, 4)[3] == longer[3]);
        assert(base.len() >= 4);
        assert(base.subrange(0, 4) == longer.subrange(0, 4));
    } else if starts_with(base, "http"@) {
        assert(longer.subrange(0, 4) == base.subrange(0, 4));
    }
}

/// A base URL that comes with `https://` and one that comes without have the
/// same normal form, where more than slashes follows the scheme.
pub proof fn lemma_scheme_added(site: Seq<char>)
    requires
        !starts_with(site, "http"@),
        strip_trailing(site, '/').len() > 0,
    ensures
        normalized_base("https://"@ + site) == normalized_base(site),
{
    reveal_strlit("http");
    reveal_strlit("https://");
    assert(("https://"@ + site).subrange(0, 4) == "http"@);
    lemma_strip_trailing_behind("https://"@, site, '/');
}

/// A Jira request resolves to the same URL from a base URL and from its
/// normal form.
pub proof fn lemma_resolve_after_normalize(base: Seq<char>, endpoint: Seq<char>)
    requires
        starts_with(base, "http"@) || strip_trailing(base, '/').len() > 0,
    ensures
        resolved_url(false, normalized_base(base), endpoint) == resolved_url(
            false,
            base,
            endpoint,
        ),
        resolved_url(false, base, endpoint) == Some(jira_url(base, endpoint)),
{
    lemma_normalize_idempotent(base);
    lemma_strip_trailing(base, '/');
    reveal_strlit("http");
}

/// For a self-hosted instance the search of version 3 becomes the search of
/// version 2, whatever follows it.
pub proof fn lemma_search_is_rewritten(tail: Seq<char>)
    ensures
        server_endpoint("/rest/api/3/search/jql"@ + tail) == "/rest/api/2/search"@
            + server_endpoint(tail),
{
    reveal_strlit("/rest/api/3/search/jql");
    reveal_strlit("/rest/api/2/search");
    reveal_strlit("/rest/api/3/");
    reveal_strlit("/rest/api/2/");
    let old_search = "/rest/api/3/search/jql"@;
    let new_search = "/rest/api/2/search"@;
    let old_path = "/rest/api/3/"@;
    let new_path = "/rest/api/2/"@;
    lemma_replace_at_start(old_search, new_search, tail);
    let rest = replace_all(tail, old_search, new_search);
    let s = new_search + rest;
    assert forall|j: int| 0 <= j < 18 implies !occurs_at(s, old_path, j) by {
        if occurs_at(s, old_path, j) {
            let w = s.subrange(j, j + 12);
            assert(w[0] == s[j]);
            assert(w[1] == s[j + 1]);
            assert(w[10] == s[j + 10]);
        }
    }
    lemma_replace_skips(s, old_path, new_path, 18);
    assert(s.take(18) == new_search);
    assert(s.skip(18) == rest);
}

/// For a self-hosted instance a path of version 3 becomes a path of version
/// 2, unless what follows makes it part of a search.
pub proof fn lemma_version_is_rewritten(tail: Seq<char>)
    requires
        !starts_with(tail, "search/jql"@),
        !starts_with(tail, "rest/api/3/search/jql"@),
    ensures
        server_endpoint("/rest/api/3/"@ + tail) == "/rest/api/2/"@ + server_endpoint(tail),
{
    reveal_strlit("/rest/api/3/search/jql");
    reveal_strlit("/rest/api/2/search");
    reveal_strlit("/rest/api/3/");
    reveal_strlit("/rest/api/2/");
    reveal_strlit("search/jql");
    reveal_strlit("rest/api/3/search/jql");
    let old_search = "/rest/api/3/search/jql"@;
    let new_search = "/rest/api/2/search"@;
    let old_path = "/rest/api/3/"@;
    let new_path = "/rest/api/2/"@;
    let s = old_path + tail;
    assert forall|j: int| 0 <= j < 12 implies !occurs_at(s, old_search, j) by {
        if occurs_at(s, old_search, j) {
            let w = s.subrange(j, j + 22);
            assert(w[0] == s[j]);
            assert(w[1] == s[j + 1]);
            if j == 0 {
                assert forall|i: int| 0 <= i < 10 implies tail[i] == "search/jql"@[i] by {
                    assert(w[12 + i] == s[12 + i]);
                }
                assert(tail.subrange(0, 10) =~= "search/jql"@);
            }
            if j == 11 {
                assert forall|i: int| 0 <= i < 21 implies tail[i] == "rest/api/3/search/jql"@[i] by {
                    assert(w[1 + i] == s[12 + i]);
                }
                assert(tail.subrange(0, 21) =~= "rest/api/3/search/jql"@);
            }
        }
    }
    lemma_replace_skips(s, old_search, new_search, 12);
    assert(s.take(12) == old_path);
    assert(s.skip(12) == tail);
    lemma_replace_at_start(old_path, new_path, replace_all(tail, old_search, new_search));
}

/// An endpoint that names no path of version 3 is asked of a self-hosted
/// instance as it is.
pub proof fn lemma_endpoint_without_version(endpoint: Seq<char>)
    requires
        !contains(endpoint, "/rest/api/3/"@),
    ensures
        server_endpoint(endpoint) == endpoint,
{
    reveal_strlit("/rest/api/3/search/jql");
    reveal_strlit("/rest/api/3/");
    assert forall|i: int| !occurs_at(endpoint, "/rest/api/3/search/jql"@, i) by {
        if occurs_at(endpoint, "/rest/api/3/search/jql"@, i) {
            let w = endpoint.subrange(i, i + 22);
            assert(endpoint.subrange(i, i + 12) =~= w.subrange(0, 12));
            assert(w.subrange(0, 12) =~= "/rest/api/3/"@);
            assert(occurs_at(endpoint, "/rest/api/3/"@, i));
        }
    }
    lemma_replace_without_match(endpoint, "/rest/api/3/search/jql"@, "/rest/api/2/search"@);
    lemma_replace_without_match(endpoint, "/rest/api/3/"@, "/rest/api/2/"@);
}

/// The rewriting for a self-hosted instance keeps an `os_authType` that the
/// endpoint names.
pub proof fn lemma_server_endpoint_keeps_auth_param(endpoint: Seq<char>)
    requires
        contains(endpoint, "os_authType"@),
    ensures
        contains(server_endpoint(endpoint), "os_authType"@),
{
    reveal_strlit("/rest/api/3/search/jql");
    reveal_strlit("/rest/api/2/search");
    reveal_strlit("/rest/api/3/");
    reveal_strlit("/rest/api/2/");
    reveal_strlit("os_authType");
    let needle = "os_authType"@;
    assert(!"/rest/api/3/search/jql"@.contains('o'));
    assert(!"/rest/api/3/"@.contains('o'));
    assert(!needle.contains('/'));
    lemma_replace_keeps(endpoint, "/rest/api/3/search/jql"@, "/rest/api/2/search"@, needle);
    lemma_replace_keeps(
        replace_all(endpoint, "/rest/api/3/search/jql"@, "/rest/api/2/search"@),
        "/rest/api/3/"@,
        "/rest/api/2/"@,
        needle,
    );
}

/// Where the endpoint names `os_authType`, nothing is appended to the URL of
/// a Jira request.
pub proof fn lemma_auth_param_kept(base: Seq<char>, endpoint: Seq<char>)
    requires
        contains(endpoint, "os_authType"@),
    ensures
        jira_url(base, endpoint) == normalized_base(base) + slash_prefixed(
            effective_endpoint(normalized_base(base), endpoint),
        ),
{
    let site = normalized_base(base);
    let asked = effective_endpoint(site, endpoint);
    if asked != endpoint {
        lemma_server_endpoint_keeps_auth_param(endpoint);
    }
    lemma_slash_prefixed_keeps(asked, "os_authType"@);
    lemma_contains_in_tail(site, slash_prefixed(asked), "os_authType"@);
}

/// Where neither base URL nor endpoint brings an `os_authType`, the URL of a
/// Jira request gets `os_authType=basic`: behind `&` if it holds a `?`,
/// behind `?` if not.
pub proof fn lemma_auth_param_appended(base: Seq<char>, endpoint: Seq<char>)
    requires
        !contains(
            normalized_base(base) + slash_prefixed(
                effective_endpoint(normalized_base(base), endpoint),
            ),
            "os_authType"@,
        ),
    ensures
        ({
            let plain = normalized_base(base) + slash_prefixed(
                effective_endpoint(normalized_base(base), endpoint),
            );
            jira_url(base, endpoint) == if plain.contains('?') {
                plain + "&os_authType=basic"@
            } else {
                plain + "?os_authType=basic"@
            }
        }),
{
    reveal_strlit("&");
    reveal_strlit("?");
    reveal_strlit("os_authType=basic");
    reveal_strlit("&os_authType=basic");
    reveal_strlit("?os_authType=basic");
    let plain = normalized_base(base) + slash_prefixed(
        effective_endpoint(normalized_base(base), endpoint),
    );
    assert("&"@ + "os_authType=basic"@ =~= "&os_authType=basic"@);
    assert("?"@ + "os_authType=basic"@ =~= "?os_authType=basic"@);
    assert(plain + "&"@ + "os_authType=basic"@ =~= plain + ("&"@ + "os_authType=basic"@));
    assert(plain + "?"@ + "os_authType=basic"@ =~= plain + ("?"@ + "os_authType=basic"@));
}

/// The URL of a Jira request always names `os_authType`.
pub proof fn lemma_jira_url_names_auth_param(base: Seq<char>, endpoint: Seq<char>)
    ensures
        contains(jira_url(base, endpoint), "os_authType"@),
{
    reveal_strlit("os_authType");
    reveal_strlit("os_authType=basic");
    reveal_strlit("&");
    reveal_strlit("?");
    let plain = normalized_base(base) + slash_prefixed(
        effective_endpoint(normalized_base(base), endpoint),
    );
    if !contains(plain, "os_authType"@) {
        let whole = with_auth_param(plain);
        let at: int = plain.len() as int + 1;
        assert(whole.subrange(at, at + 11) =~= "os_authType"@);
        assert(occurs_at(whole, "os_authType"@, at));
    }
}

} // verus!
