use grok_web_api::auth::GrokAuth;
use grok_web_api::error::GrokError;

#[test]
fn empty_sso_rejected() {
    assert!(GrokAuth::new("", "rw").is_err());
}

#[test]
fn empty_sso_rw_defaults_to_sso() {
    let auth = GrokAuth::new("abc", "").unwrap();
    assert_eq!(auth.cookie_header(), "sso=abc; sso-rw=abc");
}

#[test]
fn distinct_sso_rw_preserved() {
    let auth = GrokAuth::new("a", "b").unwrap();
    assert_eq!(auth.cookie_header(), "sso=a; sso-rw=b");
}

#[test]
fn extra_cookies_appended() {
    let auth = GrokAuth::with_extra_cookies("a", "b", "k=v; k2=v2").unwrap();
    assert_eq!(auth.cookie_header(), "sso=a; sso-rw=b; k=v; k2=v2");
}

#[test]
fn rejects_crlf_in_cookies() {
    assert!(GrokAuth::new("bad\r\nvalue", "ok").is_err());
    assert!(GrokAuth::new("ok", "bad\nvalue").is_err());
    assert!(GrokAuth::new("ok\0", "ok").is_err());
}

#[test]
fn validity_state_transitions() {
    let mut auth = GrokAuth::new("a", "b").unwrap();
    assert!(auth.is_valid());
    auth.invalidate();
    assert!(!auth.is_valid());
    auth.revalidate();
    assert!(auth.is_valid());
}

#[test]
fn empty_extra_adds_nothing_and_null_in_extra_rejected() {
    let auth = GrokAuth::with_extra_cookies("a", "", "").unwrap();
    assert_eq!(auth.cookie_header(), "sso=a; sso-rw=a");
    assert!(GrokAuth::with_extra_cookies("a", "b", "x=\0").is_err());
}

#[test]
fn error_messages_name_the_cause() {
    match GrokAuth::new("", "") {
        Err(GrokError::Config(m)) => assert_eq!(m, "GROK_SSO_COOKIE must not be empty"),
        _ => panic!("expected a configuration error"),
    }
    match GrokAuth::new("a\r", "") {
        Err(GrokError::Config(m)) => {
            assert_eq!(m, "cookie values contain CR/LF/null — likely paste error")
        }
        _ => panic!("expected a configuration error"),
    }
}

#[test]
fn cookies_survive_invalidation() {
    let mut auth = GrokAuth::new("a", "b").unwrap();
    auth.invalidate();
    assert_eq!(auth.cookie_header(), "sso=a; sso-rw=b");
}
