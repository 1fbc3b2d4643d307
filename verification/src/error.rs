//! Errors reported by the client side of the library.
use vstd::prelude::*;
use crate::text::{decimal, push_decimal};

verus! {

/// Which limit a rate-limited request ran into.
#[derive(Debug)]
pub enum RateLimitType {
    User,
    Global,
    Model,
    Other(String),
}

/// What the logic reads of a failed HTTP exchange: the transport's message and whether
/// the failure was a timeout or a connection failure.
#[derive(Debug)]
pub struct RequestFailure {
    pub message: String,
    pub is_timeout: bool,
    pub is_connect: bool,
}

/// Every error the client can report.
#[derive(Debug)]
pub enum GrokError {
    AuthExpired,
    RateLimited { message: String, wait_seconds: Option<u64>, limit_type: RateLimitType },
    Upstream { status: u16, body: String },
    NotFound(String),
    StreamParse(String),
    Request(RequestFailure),
    Json(String),
    Config(String),
}

/// The text a rate-limit kind is displayed as.
pub open spec fn rate_limit_text(t: RateLimitType) -> Seq<char> {
    match t {
        RateLimitType::User => "user"@,
        RateLimitType::Global => "global"@,
        RateLimitType::Model => "model"@,
        RateLimitType::Other(s) => s@,
    }
}

/// The message of an error, as it is displayed.
pub open spec fn error_text(e: GrokError) -> Seq<char> {
    match e {
        GrokError::AuthExpired => "authentication failed: cookies expired or invalid"@,
        GrokError::RateLimited { message, limit_type, .. } => "rate limited ("@ + rate_limit_text(
            limit_type,
        ) + "): "@ + message@,
        GrokError::Upstream { status, body } => "upstream error ("@ + decimal(status as nat)
            + "): "@ + body@,
        GrokError::NotFound(s) => "resource not found: "@ + s@,
        GrokError::StreamParse(s) => "stream parse error: "@ + s@,
        GrokError::Request(f) => "request error: "@ + f.message@,
        GrokError::Json(s) => "json error: "@ + s@,
        GrokError::Config(s) => "invalid configuration: "@ + s@,
    }
}

impl RateLimitType {
    /// The text this kind is displayed as.
    pub fn to_display_string(&self) -> (r: String)
        ensures
            r@ == rate_limit_text(*self),
    {
        match self {
            RateLimitType::User => "user".to_owned(),
            RateLimitType::Global => "global".to_owned(),
            RateLimitType::Model => "model".to_owned(),
            RateLimitType::Other(s) => s.clone(),
        }
    }
}

impl GrokError {
    /// The error's message.
    pub fn message(&self) -> (r: String)
        ensures
            r@ == error_text(*self),
    {
        match self {
            GrokError::AuthExpired => "authentication failed: cookies expired or invalid".to_owned(),
            GrokError::RateLimited { message, limit_type, .. } => {
                let mut s = "rate limited (".to_owned();
                s.append(limit_type.to_display_string().as_str());
                s.append("): ");
                s.append(message.as_str());
                s
            },
            GrokError::Upstream { status, body } => {
                let mut s = "upstream error (".to_owned();
                push_decimal(&mut s, *status as u64);
                s.append("): ");
                s.append(body.as_str());
                s
            },
            GrokError::NotFound(d) => "resource not found: ".to_owned().concat(d.as_str()),
            GrokError::StreamParse(d) => "stream parse error: ".to_owned().concat(d.as_str()),
            GrokError::Request(f) => "request error: ".to_owned().concat(f.message.as_str()),
            GrokError::Json(d) => "json error: ".to_owned().concat(d.as_str()),
            GrokError::Config(d) => "invalid configuration: ".to_owned().concat(d.as_str()),
        }
    }
}

} // verus!
