use atuin_ai::hub::{hub_url, os_label, resolve_endpoint, resolve_token, HubUrlError};

#[test]
fn hub_url_joins_paths() {
    assert_eq!(hub_url("https://hub.atuin.sh", "/api/cli/chat").unwrap(), "https://hub.atuin.sh/api/cli/chat");
    assert_eq!(hub_url("https://hub.atuin.sh/", "api/cli/chat").unwrap(), "https://hub.atuin.sh/api/cli/chat");
    assert_eq!(hub_url("https://example.com/base", "/x").unwrap(), "https://example.com/base/x");
    assert_eq!(hub_url("http://localhost:8080/a/", "b").unwrap(), "http://localhost:8080/a/b");
}

#[test]
fn hub_url_rejects_bad_base() {
    assert!(matches!(hub_url("not a url", "/x"), Err(HubUrlError::InvalidBase(_))));
    assert!(matches!(hub_url("", "/x"), Err(HubUrlError::InvalidBase(_))));
}

#[test]
fn os_labels() {
    assert_eq!(os_label("macos"), "macos");
    assert_eq!(os_label("linux"), "linux");
    assert_eq!(os_label("windows"), "windows");
    assert_eq!(os_label("freebsd"), "Other: freebsd");
}

#[test]
fn endpoint_and_token_precedence() {
    assert_eq!(resolve_endpoint(Some("http://a"), Some("http://b")), "http://a");
    assert_eq!(resolve_endpoint(None, Some("http://b")), "http://b");
    assert_eq!(resolve_endpoint(None, None), "https://hub.atuin.sh");
    assert_eq!(resolve_token(Some("t1"), Some("t2")).as_deref(), Some("t1"));
    assert_eq!(resolve_token(None, Some("t2")).as_deref(), Some("t2"));
    assert_eq!(resolve_token(None, None), None);
}

#[test]
fn invalid_base_carries_parser_message() {
    let expected = url::Url::parse("not a url/").unwrap_err().to_string();
    match hub_url("not a url", "/x") {
        Err(HubUrlError::InvalidBase(m)) => assert_eq!(m, expected),
        other => panic!("unexpected {other:?}"),
    }
}
