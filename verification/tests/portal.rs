use xdwlan_login::{
    contains_bytes, discover_login_url, extract_login_url, find_action_url, PortalMatcher,
};

fn xidian_matcher() -> PortalMatcher {
    PortalMatcher {
        marker: b"w.xidian.edu.cn".to_vec(),
        prefix: b"https://w.xidian.edu.cn".to_vec(),
    }
}

#[test]
fn contains_finds_substring() {
    assert!(contains_bytes(b"redirect to w.xidian.edu.cn now", b"w.xidian.edu.cn"));
    assert!(contains_bytes(b"abc", b""));
    assert!(contains_bytes(b"abc", b"abc"));
}

#[test]
fn contains_rejects_missing_substring() {
    assert!(!contains_bytes(b"plain page about nothing", b"w.xidian.edu.cn"));
    assert!(!contains_bytes(b"ab", b"abc"));
    assert!(!contains_bytes(b"", b"x"));
}

#[test]
fn action_url_is_extracted() {
    let body = b"<form method=\"post\" action=\"https://w.xidian.edu.cn/srun_portal_phone\">";
    let url = find_action_url(body, b"https://w.xidian.edu.cn").unwrap();
    assert_eq!(url, b"https://w.xidian.edu.cn/srun_portal_phone".to_vec());
}

#[test]
fn first_action_url_wins() {
    let body = b"action=\"https://w.xidian.edu.cn/first\" action=\"https://w.xidian.edu.cn/second\"";
    let url = find_action_url(body, b"https://w.xidian.edu.cn").unwrap();
    assert_eq!(url, b"https://w.xidian.edu.cn/first".to_vec());
}

#[test]
fn action_url_needs_closing_quote_after_run() {
    // The run of URL characters stops at `?`, which is not a closing quote,
    // so the attribute does not match the pattern.
    let body = b"action=\"https://w.xidian.edu.cn/login?ac_id=1\"";
    assert_eq!(find_action_url(body, b"https://w.xidian.edu.cn"), None);
}

#[test]
fn action_url_needs_characters_after_prefix() {
    let body = b"action=\"https://w.xidian.edu.cn\"";
    assert_eq!(find_action_url(body, b"https://w.xidian.edu.cn"), None);
}

#[test]
fn extract_needs_domain_marker() {
    let m = xidian_matcher();
    // An action attribute for some other host, and no marker anywhere.
    let body = b"<form action=\"https://portal.example.org/login\">";
    assert_eq!(extract_login_url(&m, body), None);
    // A marked page without any matching attribute also yields nothing.
    let marked = b"you were redirected by w.xidian.edu.cn <form method=\"post\">";
    assert_eq!(extract_login_url(&m, marked), None);
}

#[test]
fn extract_finds_url_on_marked_page() {
    let m = xidian_matcher();
    let body = b"intercepted by w.xidian.edu.cn <form action=\"https://w.xidian.edu.cn/portal\">";
    assert_eq!(
        extract_login_url(&m, body),
        Some(b"https://w.xidian.edu.cn/portal".to_vec())
    );
}

#[test]
fn discovery_returns_first_matching_fetch() {
    let m = xidian_matcher();
    let miss = b"nothing here".to_vec();
    let hit_a = b"w.xidian.edu.cn action=\"https://w.xidian.edu.cn/a\"".to_vec();
    let hit_b = b"w.xidian.edu.cn action=\"https://w.xidian.edu.cn/b\"".to_vec();
    let bodies = vec![miss.clone(), hit_a, miss.clone(), hit_b, miss];
    assert_eq!(
        discover_login_url(&m, &bodies),
        Some(b"https://w.xidian.edu.cn/a".to_vec())
    );
}

#[test]
fn discovery_fails_when_no_fetch_matches() {
    let m = xidian_matcher();
    let miss = b"plain page".to_vec();
    let bodies = vec![miss.clone(), miss.clone(), miss.clone(), miss.clone(), miss];
    assert_eq!(discover_login_url(&m, &bodies), None);
}
