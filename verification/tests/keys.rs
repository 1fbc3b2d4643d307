use grok_web_api::keys::{defines, merge, parse_updates, render, unquote};

fn ups(pairs: &[(&str, &str)]) -> Vec<(String, String)> {
    pairs.iter().map(|(k, v)| (k.to_string(), v.to_string())).collect()
}

#[test]
fn replaces_existing_key_preserving_others() {
    let env = "# comment\nGROK_SSO_COOKIE=old\nPORT=3000\n";
    let out = merge(env, &ups(&[("GROK_SSO_COOKIE", "new")]));
    assert!(out.contains("# comment"));
    assert!(out.contains("GROK_SSO_COOKIE=\"new\""));
    assert!(out.contains("PORT=3000"));
    assert!(!out.contains("=old"));
}

#[test]
fn appends_missing_key() {
    let out = merge("PORT=3000\n", &ups(&[("CHALLENGE_SUFFIX", "!x")]));
    assert!(out.contains("PORT=3000"));
    assert!(out.trim_end().ends_with("CHALLENGE_SUFFIX=\"!x\""));
}

#[test]
fn trailer_written_unquoted_when_numeric() {
    assert_eq!(render("CHALLENGE_TRAILER", "3"), "CHALLENGE_TRAILER=3");
}

#[test]
fn values_with_quotes_are_escaped() {
    assert_eq!(
        render("CHALLENGE_SUFFIX", "a\"b\\c"),
        "CHALLENGE_SUFFIX=\"a\\\"b\\\\c\""
    );
}

#[test]
fn defines_matches_only_exact_key() {
    assert!(defines("  PORT = 1", "PORT"));
    assert!(!defines("PORTX=1", "PORT"));
    assert!(!defines("API_KEYS=1", "API_KEY"));
}

#[test]
fn unquote_strips_matching_quotes() {
    assert_eq!(unquote("\"x\""), "x");
    assert_eq!(unquote("'x'"), "x");
    assert_eq!(unquote("x"), "x");
}

#[test]
fn merge_exact_output() {
    let out = merge(
        "A=1\r\n  PORT = 80\nlast",
        &ups(&[("PORT", "3000"), ("HOST", "h")]),
    );
    assert_eq!(out, "A=1\nPORT=\"3000\"\nlast\nHOST=\"h\"\n");
}

#[test]
fn merge_into_empty_file() {
    assert_eq!(merge("", &ups(&[("PORT", "1")])), "PORT=\"1\"\n");
    assert_eq!(merge("", &ups(&[])), "");
}

#[test]
fn merge_twice_changes_nothing() {
    let u = ups(&[("PORT", "1"), ("HOST", "x")]);
    let once = merge("# c\nPORT=9\n", &u);
    assert_eq!(merge(&once, &u), once);
}

#[test]
fn non_numeric_trailer_is_quoted() {
    assert_eq!(render("CHALLENGE_TRAILER", "3a"), "CHALLENGE_TRAILER=\"3a\"");
    assert_eq!(render("CHALLENGE_TRAILER", ""), "CHALLENGE_TRAILER=\"\"");
    assert_eq!(render("PORT", "3"), "PORT=\"3\"");
}

#[test]
fn unquote_keeps_unmatched_quotes() {
    assert_eq!(unquote("\"x'"), "\"x'");
    assert_eq!(unquote("\""), "\"");
    assert_eq!(unquote("''"), "");
}

#[test]
fn parse_updates_accepts_known_keys() {
    let args = vec![" PORT = '3000' ".to_string(), "HOST=\"0.0.0.0\"".to_string()];
    assert_eq!(
        parse_updates(&args).unwrap(),
        ups(&[("PORT", "3000"), ("HOST", "0.0.0.0")])
    );
}

#[test]
fn parse_updates_rejects_bad_arguments() {
    assert_eq!(
        parse_updates(&vec!["PORT".to_string()]).unwrap_err(),
        "argument 'PORT' is not KEY=VALUE"
    );
    let err = parse_updates(&vec!["NOPE=1".to_string()]).unwrap_err();
    assert!(err.starts_with("unknown key 'NOPE'\nallowed: GROK_SSO_COOKIE, GROK_SSO_RW_COOKIE"));
    assert!(err.ends_with("GROK_BASE_URL"));
    assert_eq!(
        parse_updates(&vec![]).unwrap_err(),
        "usage: grok-server update-keys KEY=VALUE [KEY=VALUE ...]"
    );
}
