use auth_gate::transport::{
    extract_token, remove_token_from_cookies, set_token_in_cookies, COOKIE_MAX_AGE_SECONDS,
};

#[test]
fn session_cookie_fields() {
    let c = set_token_in_cookies("tok123".to_string());
    assert_eq!(c.name, "token");
    assert_eq!(c.value, "tok123");
    assert_eq!(c.path, "/");
    assert_eq!(c.max_age_seconds, COOKIE_MAX_AGE_SECONDS);
    assert_eq!(c.max_age_seconds, 3600);
    assert!(c.http_only);
}

#[test]
fn clearing_cookie_expires_immediately() {
    let c = remove_token_from_cookies();
    assert_eq!(c.name, "token");
    assert_eq!(c.value, "");
    assert_eq!(c.path, "/");
    assert_eq!(c.max_age_seconds, -1);
    assert!(c.http_only);
}

#[test]
fn cookie_wins_over_header() {
    let r = extract_token(
        Some("from-cookie".to_string()),
        Some("Bearer from-header".to_string()),
    );
    assert_eq!(r, Some("from-cookie".to_string()));
}

#[test]
fn header_is_used_when_cookie_is_absent() {
    let r = extract_token(None, Some("Bearer abc.def.ghi".to_string()));
    assert_eq!(r, Some("abc.def.ghi".to_string()));
}

#[test]
fn header_scheme_label_is_checked() {
    assert_eq!(extract_token(None, Some("Basic abc.def.ghi".to_string())), None);
    assert_eq!(extract_token(None, Some("bearer abc".to_string())), None);
}

#[test]
fn short_header_is_rejected() {
    assert_eq!(extract_token(None, Some("Bearer".to_string())), None);
    assert_eq!(extract_token(None, Some("".to_string())), None);
}

#[test]
fn bare_scheme_label_yields_empty_token() {
    assert_eq!(extract_token(None, Some("Bearer ".to_string())), Some(String::new()));
}

#[test]
fn no_credentials_yield_nothing() {
    assert_eq!(extract_token(None, None), None);
}
