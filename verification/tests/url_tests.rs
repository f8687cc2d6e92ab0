use jira_proxy::error::ProxyError;
use jira_proxy::url::{normalize_base_url, points_at_cloud, resolve_url, rewrite_for_server};

fn jira(base: &str, endpoint: &str) -> String {
    resolve_url(false, base, endpoint).expect("a Jira request with a base URL resolves")
}

fn tempo(base: &str, endpoint: &str) -> String {
    resolve_url(true, base, endpoint).expect("a Tempo request resolves")
}

#[test]
fn cloud_issue_keeps_api_version() {
    assert_eq!(
        jira("my.atlassian.net", "/rest/api/3/issue/123"),
        "https://my.atlassian.net/rest/api/3/issue/123?os_authType=basic"
    );
}

#[test]
fn self_hosted_search_is_rewritten() {
    assert_eq!(
        jira("https://jira.internal.corp", "/rest/api/3/search/jql"),
        "https://jira.internal.corp/rest/api/2/search?os_authType=basic"
    );
}

#[test]
fn self_hosted_path_is_rewritten() {
    assert_eq!(
        jira("https://jira.internal.corp", "/rest/api/3/issue/ABC-1"),
        "https://jira.internal.corp/rest/api/2/issue/ABC-1?os_authType=basic"
    );
}

#[test]
fn self_hosted_search_with_query_uses_ampersand() {
    assert_eq!(
        jira("jira.internal.corp/", "/rest/api/3/search/jql?jql=project%3DX"),
        "https://jira.internal.corp/rest/api/2/search?jql=project%3DX&os_authType=basic"
    );
}

#[test]
fn endpoint_is_rewritten_before_it_gets_its_slash() {
    assert_eq!(
        jira("jira.internal.corp/", "rest/api/3/search/jql?jql=project%3DX"),
        "https://jira.internal.corp/rest/api/3/search/jql?jql=project%3DX&os_authType=basic"
    );
}

#[test]
fn empty_base_url_is_invalid_input() {
    let r = resolve_url(false, "", "/rest/api/3/myself");
    assert!(matches!(r, Err(ProxyError::InvalidInput)));
}

#[test]
fn empty_base_url_is_fine_for_tempo() {
    assert_eq!(tempo("", "/4/worklogs"), "https://api.tempo.io/4/worklogs");
}

#[test]
fn tempo_host_follows_the_site() {
    assert_eq!(
        tempo("https://my.atlassian.net", "4/worklogs"),
        "https://api.eu.tempo.io/4/worklogs"
    );
    assert_eq!(
        tempo("https://jira.internal.corp", "/4/worklogs?from=2024-01-01"),
        "https://api.tempo.io/4/worklogs?from=2024-01-01"
    );
}

#[test]
fn tempo_url_gets_no_auth_param_and_no_rewrite() {
    assert_eq!(
        tempo("jira.internal.corp", "/rest/api/3/search/jql"),
        "https://api.tempo.io/rest/api/3/search/jql"
    );
}

#[test]
fn normalization_adds_scheme_and_strips_slashes() {
    assert_eq!(normalize_base_url("my.atlassian.net///"), "https://my.atlassian.net");
    assert_eq!(normalize_base_url("http://jira.local/"), "http://jira.local");
    assert_eq!(normalize_base_url("https://jira.local"), "https://jira.local");
    assert_eq!(normalize_base_url("httpbin.org"), "httpbin.org");
    assert_eq!(normalize_base_url("/"), "https://");
}

#[test]
fn normalization_is_idempotent_on_samples() {
    for base in ["my.atlassian.net/", "https://jira.local//", "http://x", "jira.corp/path/"] {
        let once = normalize_base_url(base);
        assert_eq!(normalize_base_url(&once), once);
        assert_eq!(jira(&once, "/rest/api/3/x"), jira(base, "/rest/api/3/x"));
    }
}

#[test]
fn normalization_of_slashes_alone_is_not_stable() {
    assert_eq!(normalize_base_url("https://"), "https:");
}

#[test]
fn existing_auth_param_is_kept() {
    assert_eq!(
        jira("https://my.atlassian.net", "/rest/api/3/myself?os_authType=cookie"),
        "https://my.atlassian.net/rest/api/3/myself?os_authType=cookie"
    );
    assert_eq!(
        jira("https://jira.internal.corp", "/rest/api/3/myself?os_authType=cookie"),
        "https://jira.internal.corp/rest/api/2/myself?os_authType=cookie"
    );
}

#[test]
fn auth_param_named_by_the_base_is_enough() {
    assert_eq!(jira("https://os_authType.example", "/x"), "https://os_authType.example/x");
}

#[test]
fn auth_param_separator() {
    assert_eq!(jira("https://j.corp", "/a"), "https://j.corp/a?os_authType=basic");
    assert_eq!(jira("https://j.corp", "/a?b=c"), "https://j.corp/a?b=c&os_authType=basic");
    assert_eq!(jira("https://j.corp", ""), "https://j.corp/?os_authType=basic");
}

#[test]
fn rewriting_for_a_server() {
    assert_eq!(rewrite_for_server("/rest/api/3/search/jql"), "/rest/api/2/search");
    assert_eq!(rewrite_for_server("/rest/api/3/search/jql?x=1"), "/rest/api/2/search?x=1");
    assert_eq!(rewrite_for_server("/rest/api/3/search"), "/rest/api/2/search");
    assert_eq!(rewrite_for_server("/rest/api/3/issue/1"), "/rest/api/2/issue/1");
    assert_eq!(rewrite_for_server("/rest/api/2/issue/1"), "/rest/api/2/issue/1");
    assert_eq!(rewrite_for_server("/rest/api/3"), "/rest/api/3");
    assert_eq!(rewrite_for_server("/rest/agile/1.0/board"), "/rest/agile/1.0/board");
    assert_eq!(
        rewrite_for_server("/rest/api/3/a/rest/api/3/search/jql"),
        "/rest/api/2/a/rest/api/2/search"
    );
    assert_eq!(
        rewrite_for_server("/rest/api/3/rest/api/3/search/jql"),
        "/rest/api/2/rest/api/2/search"
    );
    assert_eq!(rewrite_for_server(""), "");
}

#[test]
fn rewriting_agrees_with_std_replace() {
    for e in [
        "/rest/api/3/search/jql",
        "/rest/api/3//rest/api/3/",
        "/rest/api/3/rest/api/3/",
        "x/rest/api/3/search/jqlrest/api/3/",
        "/rest/api/3/search/jq",
        "żółw/rest/api/3/ü",
    ] {
        let expected = e
            .replace("/rest/api/3/search/jql", "/rest/api/2/search")
            .replace("/rest/api/3/", "/rest/api/2/");
        assert_eq!(rewrite_for_server(e), expected);
    }
}

#[test]
fn cloud_detection() {
    assert!(points_at_cloud("https://my.atlassian.net"));
    assert!(points_at_cloud("x.atlassian.network"));
    assert!(!points_at_cloud("https://atlassian.net"));
    assert!(!points_at_cloud("https://jira.internal.corp"));
    assert!(!points_at_cloud(""));
}

#[test]
fn cloud_is_decided_by_the_base_alone() {
    assert_eq!(
        jira("https://jira.corp", "/rest/api/3/x?site=a.atlassian.net"),
        "https://jira.corp/rest/api/2/x?site=a.atlassian.net&os_authType=basic"
    );
}
