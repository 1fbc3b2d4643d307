//! Server configuration and the environment keys it is read from.
use vstd::prelude::*;
use crate::text::{decimal, opt_view, push_decimal, str_eq};

verus! {

/// The environment keys the server reads, in the order they are documented.
pub open spec fn env_key_list() -> Seq<Seq<char>> {
    seq![
        "GROK_SSO_COOKIE"@,
        "GROK_SSO_RW_COOKIE"@,
        "GROK_EXTRA_COOKIES"@,
        "TOKEN_PROVIDER_URL"@,
        "CHALLENGE_HEADER_HEX"@,
        "CHALLENGE_SUFFIX"@,
        "CHALLENGE_TRAILER"@,
        "API_KEY"@,
        "HOST"@,
        "PORT"@,
        "LOG_LEVEL"@,
        "SESSION_CHECK_INTERVAL_SECS"@,
        "GROK_BASE_URL"@,
    ]
}

/// The environment keys the server reads.
pub fn env_keys() -> (r: Vec<&'static str>)
    ensures
        r@.len() == env_key_list().len(),
        forall|i: int| 0 <= i < r@.len() ==> (#[trigger] r@[i])@ == env_key_list()[i],
{
    vec![
        "GROK_SSO_COOKIE",
        "GROK_SSO_RW_COOKIE",
        "GROK_EXTRA_COOKIES",
        "TOKEN_PROVIDER_URL",
        "CHALLENGE_HEADER_HEX",
        "CHALLENGE_SUFFIX",
        "CHALLENGE_TRAILER",
        "API_KEY",
        "HOST",
        "PORT",
        "LOG_LEVEL",
        "SESSION_CHECK_INTERVAL_SECS",
        "GROK_BASE_URL",
    ]
}

/// Settings of the server.
#[derive(Debug, Clone, PartialEq, Eq)]
pub struct Config {
    pub host: String,
    pub port: u16,
    pub api_key: Option<String>,
    pub grok_sso_cookie: String,
    pub grok_sso_rw_cookie: String,
    pub grok_extra_cookies: Option<String>,
    pub token_provider_url: Option<String>,
    pub challenge_header_hex: Option<String>,
    pub challenge_suffix: Option<String>,
    pub challenge_trailer: Option<u8>,
    pub grok_base_url: String,
    pub log_level: String,
    pub session_check_interval_secs: u64,
}

impl Default for Config {
    /// Listen on `0.0.0.0:3000`, talk to `https://grok.com`, log at `info`, check the
    /// session every 60 seconds; no cookies, no key, no challenge values.
    fn default() -> (r: Config)
        ensures
            r.host@ == "0.0.0.0"@,
            r.port == 3000,
            r.api_key is None,
            r.grok_sso_cookie@.len() == 0,
            r.grok_sso_rw_cookie@.len() == 0,
            r.grok_extra_cookies is None,
            r.token_provider_url is None,
            r.challenge_header_hex is None,
            r.challenge_suffix is None,
            r.challenge_trailer is None,
            r.grok_base_url@ == "https://grok.com"@,
            r.log_level@ == "info"@,
            r.session_check_interval_secs == 60,
    {
        Config {
            host: "0.0.0.0".to_owned(),
            port: 3000,
            api_key: None,
            grok_sso_cookie: String::new(),
            grok_sso_rw_cookie: String::new(),
            grok_extra_cookies: None,
            token_provider_url: None,
            challenge_header_hex: None,
            challenge_suffix: None,
            challenge_trailer: None,
            grok_base_url: "https://grok.com".to_owned(),
            log_level: "info".to_owned(),
            session_check_interval_secs: 60,
        }
    }
}

/// The shortest interval between two background session checks, in seconds.
pub const MIN_SESSION_CHECK_SECS: u64 = 30;

/// What the server sets up from its configuration.
#[derive(Debug, Clone, PartialEq, Eq)]
pub struct StartupPlan {
    /// The Grok base URL when it is not the default one.
    pub custom_base_url: Option<String>,
    /// The challenge values (header in hex, suffix, trailer byte) when both the header and
    /// the suffix are configured.
    pub challenge: Option<(String, String, u8)>,
    /// The external token provider, which takes over from the challenge when set.
    pub token_provider_url: Option<String>,
    /// Whether to warn that no anti-bot values can be produced.
    pub warn_no_token_source: bool,
    /// Seconds between two background session checks.
    pub session_check_secs: u64,
    /// The address to listen on, `host:port`.
    pub bind_address: String,
}

/// True when `p` is what the server sets up from `c`: a custom base URL when it differs
/// from `https://grok.com`; the challenge when header and suffix are both set, with the
/// trailer 3 by default; the token provider as configured; a warning when neither the
/// challenge header nor a token provider is set; session checks no more often than every
/// [`MIN_SESSION_CHECK_SECS`]; and the listening address.
pub open spec fn plan_for(p: StartupPlan, c: Config) -> bool {
    &&& opt_view(p.custom_base_url) == if c.grok_base_url@ == "https://grok.com"@ {
        None
    } else {
        Some(c.grok_base_url@)
    }
    &&& match p.challenge {
        Some((h, s, t)) => c.challenge_header_hex matches Some(ch) && c.challenge_suffix matches Some(
            cs,
        ) && h@ == ch@ && s@ == cs@ && t == match c.challenge_trailer {
            Some(x) => x,
            None => 3u8,
        },
        None => c.challenge_header_hex is None || c.challenge_suffix is None,
    }
    &&& opt_view(p.token_provider_url) == opt_view(c.token_provider_url)
    &&& p.warn_no_token_source == (c.challenge_header_hex is None && c.token_provider_url is None)
    &&& p.session_check_secs == if c.session_check_interval_secs < MIN_SESSION_CHECK_SECS {
        MIN_SESSION_CHECK_SECS
    } else {
        c.session_check_interval_secs
    }
    &&& p.bind_address@ == c.host@ + ":"@ + decimal(c.port as nat)
}

/// What the server sets up from `config`; `None` when the `sso` cookie is not set, which
/// stops the server.
pub fn startup_plan(config: &Config) -> (r: Option<StartupPlan>)
    ensures
        config.grok_sso_cookie@.len() == 0 ==> r is None,
        config.grok_sso_cookie@.len() > 0 ==> (r matches Some(p) && plan_for(p, *config)),
{
    if config.grok_sso_cookie.as_str().is_empty() {
        return None;
    }
    let custom_base_url = if str_eq(config.grok_base_url.as_str(), "https://grok.com") {
        None
    } else {
        Some(config.grok_base_url.clone())
    };
    let challenge = match (&config.challenge_header_hex, &config.challenge_suffix) {
        (Some(h), Some(s)) => {
            let t = match config.challenge_trailer {
                Some(x) => x,
                None => 3u8,
            };
            Some((h.clone(), s.clone(), t))
        },
        _ => None,
    };
    let token_provider_url = match &config.token_provider_url {
        Some(u) => Some(u.clone()),
        None => None,
    };
    let warn_no_token_source = config.challenge_header_hex.is_none()
        && config.token_provider_url.is_none();
    let session_check_secs = if config.session_check_interval_secs < MIN_SESSION_CHECK_SECS {
        MIN_SESSION_CHECK_SECS
    } else {
        config.session_check_interval_secs
    };
    let mut bind_address = config.host.clone();
    bind_address.append(":");
    push_decimal(&mut bind_address, config.port as u64);
    Some(
        StartupPlan {
            custom_base_url,
            challenge,
            token_provider_url,
            warn_no_token_source,
            session_check_secs,
            bind_address,
        },
    )
}

} // verus!
