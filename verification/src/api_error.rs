//! The errors the server answers with, as RFC 7807 problem documents, and how each
//! client error is reported.
use vstd::prelude::*;
use crate::error::{error_text, GrokError};
use crate::text::{contains, decimal, push_decimal, str_contains};

verus! {

/// An error answer: a machine-readable type, a title, the HTTP status, a detail text and,
/// for rate limits, how long to wait.
#[derive(Debug)]
pub struct ApiError {
    pub error_type: &'static str,
    pub title: &'static str,
    pub status: u16,
    pub detail: String,
    pub retry_after_seconds: Option<u64>,
}

/// An error answer as plain values.
pub ghost struct ApiErrorView {
    pub error_type: Seq<char>,
    pub title: Seq<char>,
    pub status: u16,
    pub detail: Seq<char>,
    pub retry_after_seconds: Option<u64>,
}

impl View for ApiError {
    type V = ApiErrorView;

    open spec fn view(&self) -> ApiErrorView {
        ApiErrorView {
            error_type: self.error_type@,
            title: self.title@,
            status: self.status,
            detail: self.detail@,
            retry_after_seconds: self.retry_after_seconds,
        }
    }
}

/// An error answer without a waiting time.
pub open spec fn problem(error_type: Seq<char>, title: Seq<char>, status: u16, detail: Seq<char>) -> ApiErrorView {
    ApiErrorView { error_type, title, status, detail, retry_after_seconds: None }
}

/// The detail for an upstream answer that the anti-bot check refused.
pub open spec fn anti_bot_detail(status: u16) -> Seq<char> {
    "Anti-bot rejected (HTTP "@ + decimal(status as nat)
        + "). Challenge values may be expired. Re-extract from browser: GET /setup"@
}

/// The detail for any other failed upstream answer.
pub open spec fn upstream_detail(status: u16, body: Seq<char>) -> Seq<char> {
    "Grok returned HTTP "@ + decimal(status as nat) + ": "@ + body
}

/// How a client error is answered.
pub open spec fn answer_for(e: GrokError) -> ApiErrorView {
    match e {
        GrokError::AuthExpired => problem(
            "auth_expired"@,
            "Session Expired"@,
            503,
            "Grok session cookies expired"@,
        ),
        GrokError::RateLimited { message, wait_seconds, .. } => ApiErrorView {
            error_type: "rate_limited"@,
            title: "Rate Limited"@,
            status: 429,
            detail: message@,
            retry_after_seconds: wait_seconds,
        },
        GrokError::NotFound(d) => problem("not_found"@, "Not Found"@, 404, d@),
        GrokError::Upstream { status, body } => if contains(body@, "anti-bot"@) {
            problem("anti_bot"@, "Anti-Bot Rejected"@, 403, anti_bot_detail(status))
        } else {
            problem("upstream_error"@, "Upstream Error"@, 502, upstream_detail(status, body@))
        },
        GrokError::StreamParse(d) => problem("stream_error"@, "Stream Parse Error"@, 502, d@),
        GrokError::Request(f) => if f.is_timeout {
            problem("gateway_timeout"@, "Gateway Timeout"@, 504, error_text(e))
        } else if f.is_connect {
            problem("upstream_unavailable"@, "Upstream Unavailable"@, 503, error_text(e))
        } else {
            problem("request_error"@, "Request Error"@, 502, f.message@)
        },
        GrokError::Json(d) => problem("json_error"@, "JSON Error"@, 500, d@),
        GrokError::Config(d) => problem("config_error"@, "Configuration Error"@, 500, d@),
    }
}

impl ApiError {
    /// An error answer without a waiting time.
    pub fn new(error_type: &'static str, title: &'static str, status: u16, detail: String) -> (r: Self)
        ensures
            r@ == problem(error_type@, title@, status, detail@),
    {
        ApiError { error_type, title, status, detail, retry_after_seconds: None }
    }

    /// The answer to a request without a valid API key.
    pub fn unauthorized() -> (r: Self)
        ensures
            r@ == problem(
                "unauthorized"@,
                "Unauthorized"@,
                401,
                "Missing or invalid API key"@,
            ),
    {
        Self::new("unauthorized", "Unauthorized", 401, "Missing or invalid API key".to_owned())
    }

    /// The answer to a malformed request.
    pub fn bad_request(detail: String) -> (r: Self)
        ensures
            r@ == problem("bad_request"@, "Bad Request"@, 400, detail@),
    {
        Self::new("bad_request", "Bad Request", 400, detail)
    }

    /// The answer when what was asked for does not exist.
    pub fn not_found(detail: String) -> (r: Self)
        ensures
            r@ == problem("not_found"@, "Not Found"@, 404, detail@),
    {
        Self::new("not_found", "Not Found", 404, detail)
    }

    /// How a client error is answered (see [`answer_for`]).
    pub fn from_grok_error(err: GrokError) -> (r: Self)
        ensures
            r@ == answer_for(err),
    {
        match err {
            GrokError::AuthExpired => Self::new(
                "auth_expired",
                "Session Expired",
                503,
                "Grok session cookies expired".to_owned(),
            ),
            GrokError::RateLimited { message, wait_seconds, .. } => ApiError {
                error_type: "rate_limited",
                title: "Rate Limited",
                status: 429,
                detail: message,
                retry_after_seconds: wait_seconds,
            },
            GrokError::NotFound(d) => Self::new("not_found", "Not Found", 404, d),
            GrokError::Upstream { status, body } => {
                if str_contains(body.as_str(), "anti-bot") {
                    let mut d = "Anti-bot rejected (HTTP ".to_owned();
                    push_decimal(&mut d, status as u64);
                    d.append(
                        "). Challenge values may be expired. Re-extract from browser: GET /setup",
                    );
                    Self::new("anti_bot", "Anti-Bot Rejected", 403, d)
                } else {
                    let mut d = "Grok returned HTTP ".to_owned();
                    push_decimal(&mut d, status as u64);
                    d.append(": ");
                    d.append(body.as_str());
                    Self::new("upstream_error", "Upstream Error", 502, d)
                }
            },
            GrokError::StreamParse(d) => Self::new("stream_error", "Stream Parse Error", 502, d),
            GrokError::Request(f) => {
                if f.is_timeout {
                    let d = GrokError::Request(f).message();
                    Self::new("gateway_timeout", "Gateway Timeout", 504, d)
                } else if f.is_connect {
                    let d = GrokError::Request(f).message();
                    Self::new("upstream_unavailable", "Upstream Unavailable", 503, d)
                } else {
                    Self::new("request_error", "Request Error", 502, f.message)
                }
            },
            GrokError::Json(d) => Self::new("json_error", "JSON Error", 500, d),
            GrokError::Config(d) => Self::new("config_error", "Configuration Error", 500, d),
        }
    }

    /// The HTTP status the answer is sent with: its own when it is a valid status code
    /// (100 to 999), else 500.
    pub fn response_status(&self) -> (r: u16)
        ensures
            r == if 100 <= self.status <= 999 {
                self.status
            } else {
                500
            },
    {
        if 100 <= self.status && self.status <= 999 {
            self.status
        } else {
            500
        }
    }
}

/// Every client error is answered with an HTTP error status (4xx or 5xx).
pub proof fn law_answers_are_error_statuses(e: GrokError)
    ensures
        400 <= answer_for(e).status <= 599,
{
}

} // verus!
