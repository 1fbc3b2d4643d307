//! The request-independent part of the Grok client: where requests go, which headers they
//! carry, and what each HTTP status means for the caller and for the session.
use vstd::prelude::*;
use crate::auth::{AuthState, GrokAuth};
use crate::challenge::{
    counter_at, is_uuid_v4_text, new_request_id, raw_token, token_text, ChallengeConfig, TOKEN_LEN,
};
use crate::error::{GrokError, RateLimitType};
use crate::json::{get_str_member, json_get_str, json_string_literal, quote_json};
use crate::text::{chars_of, contains, push_range, str_contains};

verus! {

/// The two anti-bot values a request carries.
#[derive(Debug)]
pub struct TokenPair {
    pub statsig_id: String,
    pub request_id: String,
}

impl TokenPair {
    /// No statsig token and a fresh random request id.
    pub fn fallback() -> (r: TokenPair)
        ensures
            r.statsig_id@.len() == 0,
            is_uuid_v4_text(r.request_id@),
    {
        TokenPair { statsig_id: String::new(), request_id: new_request_id() }
    }
}

/// A source of anti-bot values for a request to `path` with `method`.
pub trait TokenProvider {
    fn generate(&self, path: &str, method: &str) -> Result<TokenPair, GrokError>;
}

impl TokenProvider for ChallengeConfig {
    /// Always succeeds: the token for the request, at the clock's counter and under a
    /// random mask, and a fresh request id.
    fn generate(&self, path: &str, method: &str) -> (r: Result<TokenPair, GrokError>)
        ensures
            r matches Ok(p) && (exists|now: u64, key: u8| p.statsig_id@ == token_text(
                self@,
                path@,
                method@,
                counter_at(now) as nat,
                key,
            ) && raw_token(self@, path@, method@, counter_at(now) as nat).len() == TOKEN_LEN)
                && is_uuid_v4_text(p.request_id@),
    {
        let (statsig_id, request_id) = self.generate_headers(path, method);
        Ok(TokenPair { statsig_id, request_id })
    }
}

/// The JSON body of a request to an external token provider: the method and the path
/// (`{"method":...,"path":...}`, members in `serde_json`'s key order).
pub fn token_request_body(path: &str, method: &str) -> (r: String)
    ensures
        r@ == "{\"method\":"@ + json_string_literal(method@) + ",\"path\":"@
            + json_string_literal(path@) + "}"@,
{
    let mut b = "{\"method\":".to_owned();
    b.append(quote_json(method).as_str());
    b.append(",\"path\":");
    b.append(quote_json(path).as_str());
    b.append("}");
    b
}

/// The pair an external token provider answered with (its JSON body): the string
/// `x-statsig-id` as the statsig token, empty when there is none; the string
/// `x-xai-request-id` as the request id, a fresh random one when there is none.
pub fn token_pair_from_json(body: &str) -> (r: TokenPair)
    ensures
        r.statsig_id@ == match json_get_str(body@, "x-statsig-id"@) {
            Some(s) => s,
            None => seq![],
        },
        json_get_str(body@, "x-xai-request-id"@) matches Some(i) ==> r.request_id@ == i,
{
    let statsig_id = match get_str_member(body, "x-statsig-id") {
        Some(s) => s,
        None => String::new(),
    };
    let request_id = match get_str_member(body, "x-xai-request-id") {
        Some(i) => i,
        None => new_request_id(),
    };
    TokenPair { statsig_id, request_id }
}

/// The pair a provider produced, or the fallback pair when there is no provider or it
/// failed.
pub fn pair_or_fallback(generated: Option<Result<TokenPair, GrokError>>) -> (r: TokenPair)
    ensures
        match generated {
            Some(Ok(p)) => r == p,
            _ => r.statsig_id@.len() == 0,
        },
{
    match generated {
        Some(Ok(p)) => p,
        _ => TokenPair::fallback(),
    }
}

/// `s` without its leading `/` characters.
pub open spec fn without_leading_slashes(s: Seq<char>) -> Seq<char>
    decreases s.len(),
{
    if s.len() > 0 && s[0] == '/' {
        without_leading_slashes(s.drop_first())
    } else {
        s
    }
}

/// `s` without its trailing `/` characters.
pub open spec fn without_trailing_slashes(s: Seq<char>) -> Seq<char>
    decreases s.len(),
{
    if s.len() > 0 && s.last() == '/' {
        without_trailing_slashes(s.drop_last())
    } else {
        s
    }
}

/// The abstract content of a [`GrokClient`].
pub ghost struct ClientState {
    pub base_url: Seq<char>,
    pub auth: AuthState,
}

/// Where requests go and the session they carry.
pub struct GrokClient {
    base_url: String,
    auth: GrokAuth,
}

impl View for GrokClient {
    type V = ClientState;

    closed spec fn view(&self) -> ClientState {
        ClientState { base_url: self.base_url@, auth: self.auth@ }
    }
}

/// True for the statuses HTTP counts as success (`200..=299`).
pub open spec fn is_success(status: u16) -> bool {
    200 <= status <= 299
}

/// What a non-success answer with `status` and `body` means.
pub open spec fn failure_for(status: u16, body: Seq<char>) -> GrokFailure {
    if status == 401 || status == 403 {
        if contains(body, "anti-bot"@) {
            GrokFailure::Upstream
        } else {
            GrokFailure::AuthExpired
        }
    } else if status == 429 {
        GrokFailure::RateLimited
    } else if status == 404 {
        GrokFailure::NotFound
    } else {
        GrokFailure::Upstream
    }
}

/// The kinds of error an HTTP answer can turn into.
pub ghost enum GrokFailure {
    AuthExpired,
    RateLimited,
    NotFound,
    Upstream,
}

/// True when `e` is the error [`failure_for`] names for `status` and `body`, carrying the
/// body (and the status, for an upstream error).
pub open spec fn error_matches(e: GrokError, status: u16, body: Seq<char>) -> bool {
    match failure_for(status, body) {
        GrokFailure::AuthExpired => e is AuthExpired,
        GrokFailure::RateLimited => e matches GrokError::RateLimited {
            message,
            wait_seconds,
            limit_type,
        } && message@ == body && wait_seconds is None && limit_type is User,
        GrokFailure::NotFound => e matches GrokError::NotFound(m) && m@ == body,
        GrokFailure::Upstream => e matches GrokError::Upstream { status: s, body: b } && s
            == status && b@ == body,
    }
}

fn strip_leading_slashes(s: &str) -> (r: String)
    ensures
        r@ == without_leading_slashes(s@),
{
    let v = chars_of(s);
    assert(v@.subrange(0, v@.len() as int) =~= v@);
    let mut i: usize = 0;
    while i < v.len() && v[i] == '/'
        invariant
            v@ == s@,
            i <= v@.len(),
            without_leading_slashes(s@) == without_leading_slashes(v@.subrange(i as int, v@.len() as int)),
        decreases v.len() - i,
    {
        assert(v@.subrange(i as int, v@.len() as int).drop_first() =~= v@.subrange(
            i + 1,
            v@.len() as int,
        ));
        i += 1;
    }
    if i < v.len() {
        assert(v@.subrange(i as int, v@.len() as int)[0] == v@[i as int]);
    }
    let mut r = String::new();
    push_range(&mut r, &v, i, v.len());
    r
}

fn strip_trailing_slashes(s: &str) -> (r: String)
    ensures
        r@ == without_trailing_slashes(s@),
{
    let v = chars_of(s);
    assert(v@.subrange(0, v@.len() as int) =~= v@);
    let mut j: usize = v.len();
    while j > 0 && v[j - 1] == '/'
        invariant
            v@ == s@,
            j <= v@.len(),
            without_trailing_slashes(s@) == without_trailing_slashes(v@.subrange(0, j as int)),
        decreases j,
    {
        assert(v@.subrange(0, j as int).drop_last() =~= v@.subrange(0, j - 1));
        j -= 1;
    }
    if j > 0 {
        assert(v@.subrange(0, j as int).last() == v@[j - 1]);
    }
    assert(v@.subrange(0, v@.len() as int) =~= v@);
    let mut r = String::new();
    push_range(&mut r, &v, 0, j);
    r
}

impl GrokClient {
    /// A client for `https://grok.com`.
    pub fn new(auth: GrokAuth) -> (r: GrokClient)
        ensures
            r@.base_url == "https://grok.com"@,
            r@.auth == auth@,
    {
        proof {
            reveal_strlit("https://grok.com");
        }
        GrokClient::with_base_url(auth, "https://grok.com")
    }

    /// A client for `base_url` without its trailing slashes.
    pub fn with_base_url(auth: GrokAuth, base_url: &str) -> (r: GrokClient)
        ensures
            r@.base_url == without_trailing_slashes(base_url@),
            r@.auth == auth@,
    {
        GrokClient { base_url: strip_trailing_slashes(base_url), auth }
    }

    /// The session cookies.
    pub fn auth(&self) -> (r: &GrokAuth)
        ensures
            r@ == self@.auth,
    {
        &self.auth
    }

    /// The full URL of an API path: the base URL, `/rest/app-chat/`, and the path without
    /// its leading slashes.
    pub fn url(&self, path: &str) -> (r: String)
        ensures
            r@ == self@.base_url + "/rest/app-chat/"@ + without_leading_slashes(path@),
    {
        let mut r = self.base_url.clone();
        r.append("/rest/app-chat/");
        let p = strip_leading_slashes(path);
        r.append(p.as_str());
        r
    }

    /// The path that the anti-bot token of a request to `path` is computed over.
    pub fn token_path(path: &str) -> (r: String)
        ensures
            r@ == "/rest/app-chat/"@ + path@,
    {
        let mut r = "/rest/app-chat/".to_owned();
        r.append(path);
        r
    }

    /// The headers of a request, in the order they are set: cookies, content type, fetch
    /// metadata, then the anti-bot pair. A value that is not a valid header value is left
    /// out by whoever builds the request.
    pub fn request_headers(&self, pair: &TokenPair) -> (r: Vec<(String, String)>)
        ensures
            r@.len() == 10,
            r@[0].0@ == "cookie"@ && r@[0].1@ == self@.auth.cookies,
            r@[1].0@ == "content-type"@ && r@[1].1@ == "application/json"@,
            r@[2].0@ == "accept"@ && r@[2].1@ == "*/*"@,
            r@[3].0@ == "origin"@ && r@[3].1@ == "https://grok.com"@,
            r@[4].0@ == "referer"@ && r@[4].1@ == "https://grok.com/"@,
            r@[5].0@ == "sec-fetch-dest"@ && r@[5].1@ == "empty"@,
            r@[6].0@ == "sec-fetch-mode"@ && r@[6].1@ == "cors"@,
            r@[7].0@ == "sec-fetch-site"@ && r@[7].1@ == "same-origin"@,
            r@[8].0@ == "x-xai-request-id"@ && r@[8].1@ == pair.request_id@,
            r@[9].0@ == "x-statsig-id"@ && r@[9].1@ == pair.statsig_id@,
    {
        let mut h: Vec<(String, String)> = Vec::new();
        h.push(("cookie".to_owned(), self.auth.cookie_header().to_owned()));
        h.push(("content-type".to_owned(), "application/json".to_owned()));
        h.push(("accept".to_owned(), "*/*".to_owned()));
        h.push(("origin".to_owned(), "https://grok.com".to_owned()));
        h.push(("referer".to_owned(), "https://grok.com/".to_owned()));
        h.push(("sec-fetch-dest".to_owned(), "empty".to_owned()));
        h.push(("sec-fetch-mode".to_owned(), "cors".to_owned()));
        h.push(("sec-fetch-site".to_owned(), "same-origin".to_owned()));
        h.push(("x-xai-request-id".to_owned(), pair.request_id.clone()));
        h.push(("x-statsig-id".to_owned(), pair.statsig_id.clone()));
        h
    }

    /// Whether `status` is a success (`200..=299`).
    pub fn is_success_status(status: u16) -> (r: bool)
        ensures
            r == is_success(status),
    {
        200 <= status && status <= 299
    }

    /// What an answer with `status` and `body` means. A success marks the session valid;
    /// a 401 or 403 whose body does not mention `anti-bot` marks it invalid and reports an
    /// expired session; everything else leaves the session as it was.
    pub fn check_status(&mut self, status: u16, body: String) -> (r: Result<(), GrokError>)
        ensures
            is_success(status) ==> r is Ok && final(self)@ == (ClientState {
                auth: AuthState { valid: true, ..old(self)@.auth },
                ..old(self)@
            }),
            !is_success(status) ==> (r matches Err(e) && error_matches(e, status, body@)),
            !is_success(status) && failure_for(status, body@) == GrokFailure::AuthExpired
                ==> final(self)@ == (ClientState {
                auth: AuthState { valid: false, ..old(self)@.auth },
                ..old(self)@
            }),
            !is_success(status) && failure_for(status, body@) != GrokFailure::AuthExpired
                ==> final(self)@ == old(self)@,
    {
        if 200 <= status && status <= 299 {
            self.auth.revalidate();
            return Ok(());
        }
        if status == 401 || status == 403 {
            if str_contains(body.as_str(), "anti-bot") {
                Err(GrokError::Upstream { status, body })
            } else {
                self.auth.invalidate();
                Err(GrokError::AuthExpired)
            }
        } else if status == 429 {
            Err(
                GrokError::RateLimited {
                    message: body,
                    wait_seconds: None,
                    limit_type: RateLimitType::User,
                },
            )
        } else if status == 404 {
            Err(GrokError::NotFound(body))
        } else {
            Err(GrokError::Upstream { status, body })
        }
    }
}

/// Whether the session is alive, from the outcome of a probe request: an expired session
/// answers `false`, any other error is passed on.
pub fn session_outcome(probe: Result<(), GrokError>) -> (r: Result<bool, GrokError>)
    ensures
        match probe {
            Ok(()) => r == Ok::<bool, GrokError>(true),
            Err(GrokError::AuthExpired) => r == Ok::<bool, GrokError>(false),
            Err(e) => r == Err::<bool, GrokError>(e),
        },
{
    match probe {
        Ok(()) => Ok(true),
        Err(GrokError::AuthExpired) => Ok(false),
        Err(e) => Err(e),
    }
}

/// Whether a conversation exists, from the outcome of the lookup: not found answers
/// `false`, any other error is passed on.
pub fn existence_outcome(lookup: Result<(), GrokError>) -> (r: Result<bool, GrokError>)
    ensures
        match lookup {
            Ok(()) => r == Ok::<bool, GrokError>(true),
            Err(GrokError::NotFound(_)) => r == Ok::<bool, GrokError>(false),
            Err(e) => r == Err::<bool, GrokError>(e),
        },
{
    match lookup {
        Ok(()) => Ok(true),
        Err(GrokError::NotFound(_)) => Ok(false),
        Err(e) => Err(e),
    }
}

} // verus!
