//! What the native REST routes decide before they call Grok: their query parameters, how
//! a deletion is done, how the raw proxy forwards a request, and how the session check
//! is answered.
use vstd::prelude::*;
use crate::error::{error_text, GrokError};
use crate::json::{json_get_str, get_str_member};
use crate::text::{chars_of, has_prefix_at, starts_with, str_eq};
use crate::types::{CodeLanguage, ListConversationsQuery};

verus! {

/// Query of the conversation listing route.
#[derive(Debug, Clone, PartialEq, Eq, Default)]
pub struct ListQuery {
    pub page_size: Option<u32>,
    pub page_token: Option<String>,
    pub starred: Option<bool>,
}

impl ListQuery {
    /// The listing query sent to Grok: the page size and token as given, the starred
    /// filter from `starred`, no workspace.
    pub fn conversations_query(self) -> (r: ListConversationsQuery)
        ensures
            r == (ListConversationsQuery {
                page_size: self.page_size,
                page_token: self.page_token,
                filter_is_starred: self.starred,
                workspace_id: None,
            }),
    {
        ListConversationsQuery {
            page_size: self.page_size,
            page_token: self.page_token,
            filter_is_starred: self.starred,
            workspace_id: None,
        }
    }
}

/// Query of the conversation deletion route.
#[derive(Debug, Clone, Copy, PartialEq, Eq, Default)]
pub struct DeleteQuery {
    pub soft: Option<bool>,
    pub delete_media: Option<bool>,
}

/// How a conversation is deleted.
#[derive(Debug, Clone, Copy, PartialEq, Eq)]
pub enum Deletion {
    /// Moved to the deleted conversations, from where it can be restored.
    Soft,
    /// Removed for good, with its media or not.
    Hard { delete_media: bool },
}

impl DeleteQuery {
    /// Soft when `soft` is true; otherwise for good, with the media only when
    /// `delete_media` is true.
    pub fn deletion(&self) -> (r: Deletion)
        ensures
            r == if self.soft == Some(true) {
                Deletion::Soft
            } else {
                Deletion::Hard { delete_media: self.delete_media == Some(true) }
            },
    {
        let soft = match self.soft {
            Some(b) => b,
            None => false,
        };
        if soft {
            Deletion::Soft
        } else {
            Deletion::Hard {
                delete_media: match self.delete_media {
                    Some(b) => b,
                    None => false,
                },
            }
        }
    }
}

/// Query of the response listing route.
#[derive(Debug, Clone, Copy, PartialEq, Eq, Default)]
pub struct ResponsesQuery {
    pub include_threads: Option<bool>,
}

impl ResponsesQuery {
    /// Whether threads are included: only when asked for.
    pub fn include_threads(&self) -> (r: bool)
        ensures
            r == (self.include_threads == Some(true)),
    {
        match self.include_threads {
            Some(b) => b,
            None => false,
        }
    }
}

/// Body of the code-running route.
#[derive(Debug, Clone, PartialEq, Eq)]
pub struct RunCodeBody {
    pub language: CodeLanguage,
    pub code: String,
}

/// Query of the Google Drive listing route.
#[derive(Debug, Clone, PartialEq, Eq, Default)]
pub struct DriveQuery {
    pub query: Option<String>,
}

/// Query of the share-link listing route.
#[derive(Debug, Clone, PartialEq, Eq, Default)]
pub struct ListShareLinksQuery {
    pub page_size: Option<u32>,
    pub page_token: Option<String>,
}

/// Query of the suggestions route.
#[derive(Debug, Clone, PartialEq, Eq, Default)]
pub struct SuggestionsQuery {
    pub query: Option<String>,
    pub count: Option<u32>,
}

/// Query of the voice routes.
#[derive(Debug, Clone, PartialEq, Eq, Default)]
pub struct VoiceQuery {
    pub voice_id: Option<String>,
}

/// The question of a quick-answer body (JSON text): its string `query` member, else empty.
pub fn quick_answer_query(body: &str) -> (r: String)
    ensures
        r@ == match json_get_str(body@, "query"@) {
            Some(q) => q,
            None => seq![],
        },
{
    match get_str_member(body, "query") {
        Some(q) => q,
        None => String::new(),
    }
}

/// The path a raw request is forwarded to: the request path without its `/raw/` prefix.
pub open spec fn raw_target(path: Seq<char>) -> Seq<char> {
    if starts_with(path, "/raw/"@) {
        path.skip(5)
    } else {
        path
    }
}

/// The Grok path for a raw request to `path` (see [`raw_target`]).
pub fn raw_path(path: &str) -> (r: String)
    ensures
        r@ == raw_target(path@),
{
    let v = chars_of(path);
    let prefix = chars_of("/raw/");
    proof {
        reveal_strlit("/raw/");
    }
    assert(v@.subrange(0, v@.len() as int) =~= path@);
    if has_prefix_at(&v, 0, v.len(), &prefix) {
        let r = path.substring_char(5, v.len());
        assert(r@ =~= path@.skip(5));
        r.to_owned()
    } else {
        path.to_owned()
    }
}

/// How the raw proxy forwards a request.
#[derive(Debug, Clone, Copy, PartialEq, Eq)]
pub enum RawForward {
    /// A GET without body.
    Get,
    /// A DELETE without body.
    Delete,
    /// A PUT of the body read as JSON.
    Put,
    /// A POST of the body read as JSON, or of `null` when there is no body.
    Post { with_body: bool },
}

/// How a raw request with `method` is forwarded: GET and DELETE as they are when they
/// carry no body, PUT with its body, anything else as a POST.
pub open spec fn raw_forward_of(method: Seq<char>, body_empty: bool) -> RawForward {
    if method == "GET"@ && body_empty {
        RawForward::Get
    } else if method == "DELETE"@ && body_empty {
        RawForward::Delete
    } else if method == "PUT"@ && !body_empty {
        RawForward::Put
    } else {
        RawForward::Post { with_body: !body_empty }
    }
}

/// How a raw request is forwarded (see [`raw_forward_of`]).
pub fn raw_forward(method: &str, body_empty: bool) -> (r: RawForward)
    ensures
        r == raw_forward_of(method@, body_empty),
{
    if str_eq(method, "GET") && body_empty {
        RawForward::Get
    } else if str_eq(method, "DELETE") && body_empty {
        RawForward::Delete
    } else if str_eq(method, "PUT") && !body_empty {
        RawForward::Put
    } else {
        RawForward::Post { with_body: !body_empty }
    }
}

/// The answer of the session check: the HTTP status, the status and session words, and
/// a message where there is one.
#[derive(Debug, Clone, PartialEq, Eq)]
pub struct SessionHealth {
    pub http_status: u16,
    pub status: &'static str,
    pub session: &'static str,
    pub message: Option<String>,
}

/// How the session check is answered: 200 when the session is valid, 503 when the
/// cookies expired, 502 with the error's message when the check failed.
pub fn session_health(check: Result<bool, GrokError>) -> (r: SessionHealth)
    ensures
        match check {
            Ok(true) => r.http_status == 200 && r.status@ == "ok"@ && r.session@ == "valid"@
                && r.message is None,
            Ok(false) => r.http_status == 503 && r.status@ == "error"@ && r.session@
                == "expired"@ && (r.message matches Some(m) && m@ == "Grok SSO cookies expired"@),
            Err(e) => r.http_status == 502 && r.status@ == "error"@ && r.session@ == "unknown"@
                && (r.message matches Some(m) && m@ == error_text(e)),
        },
{
    match check {
        Ok(true) => SessionHealth { http_status: 200, status: "ok", session: "valid", message: None },
        Ok(false) => SessionHealth {
            http_status: 503,
            status: "error",
            session: "expired",
            message: Some("Grok SSO cookies expired".to_owned()),
        },
        Err(e) => SessionHealth {
            http_status: 502,
            status: "error",
            session: "unknown",
            message: Some(e.message()),
        },
    }
}

} // verus!
