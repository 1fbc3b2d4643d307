use base64::Engine;
use grok_web_api::challenge::{hex_cuts_cleanly, hex_decode, ChallengeConfig};
use grok_web_api::client::{TokenPair, TokenProvider};
use grok_web_api::error::GrokError;

fn sample_hex() -> String {
    "00".repeat(49)
}

fn unbase64(token: &str) -> Vec<u8> {
    base64::engine::general_purpose::STANDARD_NO_PAD.decode(token.as_bytes()).expect("valid base64")
}

#[test]
fn rejects_wrong_length_header() {
    assert!(ChallengeConfig::new("00", "suffix", 3).is_err());
}

#[test]
fn rejects_odd_hex() {
    assert!(ChallengeConfig::new("0", "suffix", 3).is_err());
}

#[test]
fn rejects_invalid_hex_chars() {
    assert!(ChallengeConfig::new(&"zz".repeat(49), "suffix", 3).is_err());
}

#[test]
fn token_is_valid_base64_and_correct_length() {
    let cfg = ChallengeConfig::new(&sample_hex(), "suffix", 3).unwrap();
    let token = cfg.generate_token("/x", "POST");
    let decoded = unbase64(&token);
    assert_eq!(decoded.len(), 70);
}

#[test]
fn tokens_differ_across_calls_due_to_xor() {
    let cfg = ChallengeConfig::new(&sample_hex(), "suffix", 3).unwrap();
    let mut seen = std::collections::HashSet::new();
    for _ in 0..32 {
        seen.insert(cfg.generate_token("/x", "POST"));
    }
    assert!(seen.len() > 1, "XOR randomization should vary token");
}

#[test]
fn request_id_is_uuid() {
    let cfg = ChallengeConfig::new(&sample_hex(), "suffix", 3).unwrap();
    let (_, req_id) = cfg.generate_headers("/x", "POST");
    assert!(uuid::Uuid::parse_str(&req_id).is_ok());
}

#[test]
fn config_errors_name_the_problem() {
    match ChallengeConfig::new("00", "s", 1) {
        Err(GrokError::Config(m)) => assert_eq!(m, "static_header must be 49 bytes, got 1"),
        _ => panic!("expected a length error"),
    }
    match ChallengeConfig::new("0", "s", 1) {
        Err(GrokError::Config(m)) => assert_eq!(m, "Invalid static_header hex: Odd-length hex string"),
        _ => panic!("expected an odd-length error"),
    }
    match ChallengeConfig::new("zz", "s", 1) {
        Err(GrokError::Config(m)) => assert_eq!(m, "Invalid static_header hex: invalid digit found in string"),
        _ => panic!("expected a digit error"),
    }
    assert!(ChallengeConfig::new(&"+0".repeat(49), "s", 1).is_err());
}

#[test]
fn hex_decode_reads_pairs() {
    assert_eq!(hex_decode("00ff7A"), Ok(vec![0, 255, 122]));
    assert!(hex_decode("+f").is_err());
    assert!(hex_decode("-1").is_err());
    assert_eq!(hex_decode("aé"), Err("Odd-length hex string".to_owned()));
    assert!(hex_decode("0g").is_err());
    assert!(hex_cuts_cleanly("abcd"));
    assert!(hex_cuts_cleanly("aé"));
    assert!(hex_cuts_cleanly("zz0é0"));
    assert!(hex_cuts_cleanly("0aé"));
    assert!(!hex_cuts_cleanly("0é0"));
    assert_eq!(hex_decode("zz0é0"), Err("invalid digit found in string".to_owned()));
    assert_eq!(hex_decode("0aé"), Err("invalid digit found in string".to_owned()));
}

#[test]
fn token_layout_is_header_counter_hash_trailer_masked() {
    let cfg = ChallengeConfig::new(&"ab".repeat(49), "sfx", 7).unwrap();
    let token = cfg.token_for("/p", "GET", 0x0102_0304, 0x5a);
    let raw: Vec<u8> = unbase64(&token).into_iter().map(|b| b ^ 0x5a).collect();
    assert_eq!(raw.len(), 70);
    assert!(raw[..49].iter().all(|&b| b == 0xab));
    assert_eq!(&raw[49..53], &[4, 3, 2, 1]);
    assert_eq!(raw[69], 7);
    let digest = <sha2::Sha256 as sha2::Digest>::digest(b"GET!/p!16909060sfx");
    assert_eq!(&raw[53..69], &digest[..16]);
    let again = cfg.token_for("/p", "GET", 0x0102_0304, 0x5a);
    assert_eq!(token, again);
    let other_key = cfg.token_for("/p", "GET", 0x0102_0304, 0x00);
    assert_ne!(token, other_key);
}

fn is_v4_text(s: &str) -> bool {
    let u = match uuid::Uuid::parse_str(s) {
        Ok(u) => u,
        Err(_) => return false,
    };
    s.len() == 36 && s == s.to_lowercase() && u.get_version_num() == 4
}

#[test]
fn fallback_pair_has_a_fresh_v4_request_id() {
    let a = TokenPair::fallback();
    let b = TokenPair::fallback();
    assert_eq!(a.statsig_id, "");
    assert!(is_v4_text(&a.request_id));
    assert_ne!(a.request_id, b.request_id);
}

#[test]
fn challenge_provider_always_answers() {
    let cfg = ChallengeConfig::new(&sample_hex(), "suffix", 3).unwrap();
    let pair = cfg.generate("/rest/app-chat/x", "GET").expect("always succeeds");
    assert_eq!(unbase64(&pair.statsig_id).len(), 70);
    assert!(is_v4_text(&pair.request_id));
}
