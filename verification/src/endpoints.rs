//! The Grok REST endpoints: for each call the client makes, its method, its path under
//! `/rest/app-chat/`, its query and what its body is.
use vstd::prelude::*;
use crate::json::{json_string_literal, quote_json};
use crate::text::{decimal, opt_str_view, opt_view, push_decimal};
use crate::types::{
    ArtifactId, ArtifactVersionId, CompanionId, ConversationId, FileMetadataId,
    ListConversationsQuery, MemoryId, ShareLinkId, VoiceId,
};

verus! {

/// The HTTP method of a call.
#[derive(Debug, Clone, Copy, PartialEq, Eq)]
pub enum HttpMethod {
    Get,
    Post,
    Put,
    Delete,
}

/// What a call sends as its JSON body.
#[derive(Debug, Clone, PartialEq, Eq)]
pub enum CallBody {
    /// No body.
    Empty,
    /// `{}`.
    EmptyObject,
    /// `null`.
    Null,
    /// The caller's request, serialized.
    Request,
    /// This JSON text.
    Json(String),
}

/// A call to the Grok REST API.
#[derive(Debug, Clone, PartialEq, Eq)]
pub struct ApiCall {
    pub method: HttpMethod,
    pub path: String,
    pub query: Vec<(String, String)>,
    pub body: CallBody,
}

/// The views of query pairs.
pub open spec fn query_view(q: Seq<(String, String)>) -> Seq<(Seq<char>, Seq<char>)> {
    q.map_values(|p: (String, String)| (p.0@, p.1@))
}

/// Fetches an artifact.
pub fn get_artifact(id: &ArtifactId) -> (r: ApiCall)
    ensures
        r.method == HttpMethod::Post,
        r.path@ == "artifacts/"@ + id.0@,
        r.query@.len() == 0,
        r.body == CallBody::EmptyObject,
{
    let mut path = "artifacts/".to_owned();
    path.append(id.0.as_str());
    ApiCall { method: HttpMethod::Post, path, query: Vec::new(), body: CallBody::EmptyObject }
}

/// Fetches one version of an artifact's content.
pub fn get_artifact_content(version_id: &ArtifactVersionId) -> (r: ApiCall)
    ensures
        r.method == HttpMethod::Get,
        r.path@ == "artifact_content/"@ + version_id.0@,
        r.query@.len() == 0,
        r.body == CallBody::Empty,
{
    let mut path = "artifact_content/".to_owned();
    path.append(version_id.0.as_str());
    ApiCall { method: HttpMethod::Get, path, query: Vec::new(), body: CallBody::Empty }
}

/// Updates an artifact with the given request.
pub fn update_artifact(id: &ArtifactId) -> (r: ApiCall)
    ensures
        r.method == HttpMethod::Post,
        r.path@ == "artifacts/"@ + id.0@ + "/update"@,
        r.query@.len() == 0,
        r.body == CallBody::Request,
{
    let mut path = "artifacts/".to_owned();
    path.append(id.0.as_str());
    path.append("/update");
    ApiCall { method: HttpMethod::Post, path, query: Vec::new(), body: CallBody::Request }
}

/// Fetches the metadata of a conversation's artifacts.
pub fn get_artifacts_metadata(conversation_id: &ConversationId) -> (r: ApiCall)
    ensures
        r.method == HttpMethod::Post,
        r.path@ == "conversations/"@ + conversation_id.0@ + "/artifacts_metadata"@,
        r.query@.len() == 0,
        r.body == CallBody::EmptyObject,
{
    let mut path = "conversations/".to_owned();
    path.append(conversation_id.0.as_str());
    path.append("/artifacts_metadata");
    ApiCall { method: HttpMethod::Post, path, query: Vec::new(), body: CallBody::EmptyObject }
}

/// Starts a conversation; the reply streams.
pub fn create_conversation() -> (r: ApiCall)
    ensures
        r.method == HttpMethod::Post,
        r.path@ == "conversations/new"@,
        r.query@.len() == 0,
        r.body == CallBody::Request,
{
    let path = "conversations/new".to_owned();
    ApiCall { method: HttpMethod::Post, path, query: Vec::new(), body: CallBody::Request }
}

/// Continues a conversation; the reply streams.
pub fn add_response(conversation_id: &ConversationId) -> (r: ApiCall)
    ensures
        r.method == HttpMethod::Post,
        r.path@ == "conversations/"@ + conversation_id.0@ + "/responses"@,
        r.query@.len() == 0,
        r.body == CallBody::Request,
{
    let mut path = "conversations/".to_owned();
    path.append(conversation_id.0.as_str());
    path.append("/responses");
    ApiCall { method: HttpMethod::Post, path, query: Vec::new(), body: CallBody::Request }
}

/// Asks a quick question; the reply streams.
pub fn quick_answer() -> (r: ApiCall)
    ensures
        r.method == HttpMethod::Post,
        r.path@ == "quick-answer"@,
        r.query@.len() == 0,
        r.body == CallBody::Request,
{
    let path = "quick-answer".to_owned();
    ApiCall { method: HttpMethod::Post, path, query: Vec::new(), body: CallBody::Request }
}

/// Stops the replies in progress in a conversation.
pub fn stop_responses(conversation_id: &ConversationId) -> (r: ApiCall)
    ensures
        r.method == HttpMethod::Post,
        r.path@ == "conversations/"@ + conversation_id.0@ + "/stop-inflight-responses"@,
        r.query@.len() == 0,
        r.body == CallBody::Null,
{
    let mut path = "conversations/".to_owned();
    path.append(conversation_id.0.as_str());
    path.append("/stop-inflight-responses");
    ApiCall { method: HttpMethod::Post, path, query: Vec::new(), body: CallBody::Null }
}

/// Cancels a reply in progress.
pub fn cancel_response(response_id: &str) -> (r: ApiCall)
    ensures
        r.method == HttpMethod::Delete,
        r.path@ == "conversations/inflight-response/"@ + response_id@,
        r.query@.len() == 0,
        r.body == CallBody::Empty,
{
    let mut path = "conversations/inflight-response/".to_owned();
    path.append(response_id);
    ApiCall { method: HttpMethod::Delete, path, query: Vec::new(), body: CallBody::Empty }
}

/// Reconnects to a reply in progress.
pub fn reconnect_response(response_id: &str) -> (r: ApiCall)
    ensures
        r.method == HttpMethod::Get,
        r.path@ == "conversations/reconnect-response-v2/"@ + response_id@,
        r.query@.len() == 0,
        r.body == CallBody::Empty,
{
    let mut path = "conversations/reconnect-response-v2/".to_owned();
    path.append(response_id);
    ApiCall { method: HttpMethod::Get, path, query: Vec::new(), body: CallBody::Empty }
}

/// Runs code.
pub fn run_code() -> (r: ApiCall)
    ensures
        r.method == HttpMethod::Post,
        r.path@ == "run-code"@,
        r.query@.len() == 0,
        r.body == CallBody::Request,
{
    let path = "run-code".to_owned();
    ApiCall { method: HttpMethod::Post, path, query: Vec::new(), body: CallBody::Request }
}

/// Fetches a conversation.
pub fn get_conversation(id: &ConversationId) -> (r: ApiCall)
    ensures
        r.method == HttpMethod::Get,
        r.path@ == "conversations/"@ + id.0@,
        r.query@.len() == 0,
        r.body == CallBody::Empty,
{
    let mut path = "conversations/".to_owned();
    path.append(id.0.as_str());
    ApiCall { method: HttpMethod::Get, path, query: Vec::new(), body: CallBody::Empty }
}

/// Asks whether a conversation exists.
pub fn conversation_exists(id: &ConversationId) -> (r: ApiCall)
    ensures
        r.method == HttpMethod::Get,
        r.path@ == "conversations/exists/"@ + id.0@,
        r.query@.len() == 0,
        r.body == CallBody::Empty,
{
    let mut path = "conversations/exists/".to_owned();
    path.append(id.0.as_str());
    ApiCall { method: HttpMethod::Get, path, query: Vec::new(), body: CallBody::Empty }
}

/// Updates a conversation with the given request.
pub fn update_conversation(id: &ConversationId) -> (r: ApiCall)
    ensures
        r.method == HttpMethod::Put,
        r.path@ == "conversations/"@ + id.0@,
        r.query@.len() == 0,
        r.body == CallBody::Request,
{
    let mut path = "conversations/".to_owned();
    path.append(id.0.as_str());
    ApiCall { method: HttpMethod::Put, path, query: Vec::new(), body: CallBody::Request }
}

/// Moves a conversation to the deleted ones.
pub fn soft_delete_conversation(id: &ConversationId) -> (r: ApiCall)
    ensures
        r.method == HttpMethod::Delete,
        r.path@ == "conversations/soft/"@ + id.0@,
        r.query@.len() == 0,
        r.body == CallBody::Empty,
{
    let mut path = "conversations/soft/".to_owned();
    path.append(id.0.as_str());
    ApiCall { method: HttpMethod::Delete, path, query: Vec::new(), body: CallBody::Empty }
}

/// Has a title made for a conversation.
pub fn generate_title(id: &ConversationId) -> (r: ApiCall)
    ensures
        r.method == HttpMethod::Post,
        r.path@ == "conversations/"@ + id.0@ + "/title"@,
        r.query@.len() == 0,
        r.body == CallBody::EmptyObject,
{
    let mut path = "conversations/".to_owned();
    path.append(id.0.as_str());
    path.append("/title");
    ApiCall { method: HttpMethod::Post, path, query: Vec::new(), body: CallBody::EmptyObject }
}

/// Deletes every conversation.
pub fn delete_all_conversations() -> (r: ApiCall)
    ensures
        r.method == HttpMethod::Delete,
        r.path@ == "conversations"@,
        r.query@.len() == 0,
        r.body == CallBody::Empty,
{
    let path = "conversations".to_owned();
    ApiCall { method: HttpMethod::Delete, path, query: Vec::new(), body: CallBody::Empty }
}

/// Uploads a file.
pub fn upload_file() -> (r: ApiCall)
    ensures
        r.method == HttpMethod::Post,
        r.path@ == "upload-file"@,
        r.query@.len() == 0,
        r.body == CallBody::Request,
{
    let path = "upload-file".to_owned();
    ApiCall { method: HttpMethod::Post, path, query: Vec::new(), body: CallBody::Request }
}

/// Fetches a file's metadata.
pub fn get_file_metadata(id: &FileMetadataId) -> (r: ApiCall)
    ensures
        r.method == HttpMethod::Post,
        r.path@ == "file-metadata/"@ + id.0@,
        r.query@.len() == 0,
        r.body == CallBody::EmptyObject,
{
    let mut path = "file-metadata/".to_owned();
    path.append(id.0.as_str());
    ApiCall { method: HttpMethod::Post, path, query: Vec::new(), body: CallBody::EmptyObject }
}

/// Reads a Google Drive file.
pub fn read_google_drive_file(id: &str) -> (r: ApiCall)
    ensures
        r.method == HttpMethod::Get,
        r.path@ == "google-drive/files/"@ + id@,
        r.query@.len() == 0,
        r.body == CallBody::Empty,
{
    let mut path = "google-drive/files/".to_owned();
    path.append(id);
    ApiCall { method: HttpMethod::Get, path, query: Vec::new(), body: CallBody::Empty }
}

/// Fetches the memory of some conversations.
pub fn get_memory() -> (r: ApiCall)
    ensures
        r.method == HttpMethod::Post,
        r.path@ == "memory"@,
        r.query@.len() == 0,
        r.body == CallBody::Request,
{
    let path = "memory".to_owned();
    ApiCall { method: HttpMethod::Post, path, query: Vec::new(), body: CallBody::Request }
}

/// Deletes the memory of some conversations (their ids go in the query).
pub fn delete_memory() -> (r: ApiCall)
    ensures
        r.method == HttpMethod::Delete,
        r.path@ == "memory"@,
        r.query@.len() == 0,
        r.body == CallBody::Request,
{
    let path = "memory".to_owned();
    ApiCall { method: HttpMethod::Delete, path, query: Vec::new(), body: CallBody::Request }
}

/// Fetches a companion's memories.
pub fn fetch_memories_v2(companion_id: &CompanionId) -> (r: ApiCall)
    ensures
        r.method == HttpMethod::Get,
        r.path@ == "memories_v2/"@ + companion_id.0@,
        r.query@.len() == 0,
        r.body == CallBody::Empty,
{
    let mut path = "memories_v2/".to_owned();
    path.append(companion_id.0.as_str());
    ApiCall { method: HttpMethod::Get, path, query: Vec::new(), body: CallBody::Empty }
}

/// Deletes all of a companion's memories.
pub fn delete_all_memories_v2(companion_id: &CompanionId) -> (r: ApiCall)
    ensures
        r.method == HttpMethod::Delete,
        r.path@ == "memories_v2/"@ + companion_id.0@,
        r.query@.len() == 0,
        r.body == CallBody::Empty,
{
    let mut path = "memories_v2/".to_owned();
    path.append(companion_id.0.as_str());
    ApiCall { method: HttpMethod::Delete, path, query: Vec::new(), body: CallBody::Empty }
}

/// Moves all of a companion's memories to the deleted ones.
pub fn soft_delete_all_memories_v2(companion_id: &CompanionId) -> (r: ApiCall)
    ensures
        r.method == HttpMethod::Delete,
        r.path@ == "memories_v2/soft/"@ + companion_id.0@,
        r.query@.len() == 0,
        r.body == CallBody::Empty,
{
    let mut path = "memories_v2/soft/".to_owned();
    path.append(companion_id.0.as_str());
    ApiCall { method: HttpMethod::Delete, path, query: Vec::new(), body: CallBody::Empty }
}

/// Edits a memory with the given request.
pub fn edit_memory_v2(id: &MemoryId) -> (r: ApiCall)
    ensures
        r.method == HttpMethod::Put,
        r.path@ == "memory_v2/"@ + id.0@,
        r.query@.len() == 0,
        r.body == CallBody::Request,
{
    let mut path = "memory_v2/".to_owned();
    path.append(id.0.as_str());
    ApiCall { method: HttpMethod::Put, path, query: Vec::new(), body: CallBody::Request }
}

/// Deletes a memory.
pub fn delete_memory_v2(id: &MemoryId) -> (r: ApiCall)
    ensures
        r.method == HttpMethod::Delete,
        r.path@ == "memory_v2/"@ + id.0@,
        r.query@.len() == 0,
        r.body == CallBody::Empty,
{
    let mut path = "memory_v2/".to_owned();
    path.append(id.0.as_str());
    ApiCall { method: HttpMethod::Delete, path, query: Vec::new(), body: CallBody::Empty }
}

/// Moves a memory to the deleted ones.
pub fn soft_delete_memory_v2(id: &MemoryId) -> (r: ApiCall)
    ensures
        r.method == HttpMethod::Delete,
        r.path@ == "memory_v2/soft/"@ + id.0@,
        r.query@.len() == 0,
        r.body == CallBody::Empty,
{
    let mut path = "memory_v2/soft/".to_owned();
    path.append(id.0.as_str());
    ApiCall { method: HttpMethod::Delete, path, query: Vec::new(), body: CallBody::Empty }
}

/// Fetches the memory summary.
pub fn get_memory_blurb() -> (r: ApiCall)
    ensures
        r.method == HttpMethod::Get,
        r.path@ == "user-memory-blurb"@,
        r.query@.len() == 0,
        r.body == CallBody::Empty,
{
    let path = "user-memory-blurb".to_owned();
    ApiCall { method: HttpMethod::Get, path, query: Vec::new(), body: CallBody::Empty }
}

/// Shares a conversation with the given request.
pub fn share_conversation(conversation_id: &ConversationId) -> (r: ApiCall)
    ensures
        r.method == HttpMethod::Post,
        r.path@ == "conversations/"@ + conversation_id.0@ + "/share"@,
        r.query@.len() == 0,
        r.body == CallBody::Request,
{
    let mut path = "conversations/".to_owned();
    path.append(conversation_id.0.as_str());
    path.append("/share");
    ApiCall { method: HttpMethod::Post, path, query: Vec::new(), body: CallBody::Request }
}

/// Shares an artifact with the given request.
pub fn share_artifact(conversation_id: &ConversationId) -> (r: ApiCall)
    ensures
        r.method == HttpMethod::Post,
        r.path@ == "conversations/"@ + conversation_id.0@ + "/share_artifact"@,
        r.query@.len() == 0,
        r.body == CallBody::Request,
{
    let mut path = "conversations/".to_owned();
    path.append(conversation_id.0.as_str());
    path.append("/share_artifact");
    ApiCall { method: HttpMethod::Post, path, query: Vec::new(), body: CallBody::Request }
}

/// Fetches a share link.
pub fn get_share_link(id: &ShareLinkId) -> (r: ApiCall)
    ensures
        r.method == HttpMethod::Get,
        r.path@ == "share_links_data/"@ + id.0@,
        r.query@.len() == 0,
        r.body == CallBody::Empty,
{
    let mut path = "share_links_data/".to_owned();
    path.append(id.0.as_str());
    ApiCall { method: HttpMethod::Get, path, query: Vec::new(), body: CallBody::Empty }
}

/// Clones a share link.
pub fn clone_share_link(id: &ShareLinkId) -> (r: ApiCall)
    ensures
        r.method == HttpMethod::Post,
        r.path@ == "share_links/"@ + id.0@ + "/clone"@,
        r.query@.len() == 0,
        r.body == CallBody::EmptyObject,
{
    let mut path = "share_links/".to_owned();
    path.append(id.0.as_str());
    path.append("/clone");
    ApiCall { method: HttpMethod::Post, path, query: Vec::new(), body: CallBody::EmptyObject }
}

/// Deletes a share link.
pub fn delete_share_link(id: &ShareLinkId) -> (r: ApiCall)
    ensures
        r.method == HttpMethod::Delete,
        r.path@ == "share_links/"@ + id.0@,
        r.query@.len() == 0,
        r.body == CallBody::Empty,
{
    let mut path = "share_links/".to_owned();
    path.append(id.0.as_str());
    ApiCall { method: HttpMethod::Delete, path, query: Vec::new(), body: CallBody::Empty }
}

/// Fetches a shared artifact.
pub fn get_shared_artifact(id: &str) -> (r: ApiCall)
    ensures
        r.method == HttpMethod::Get,
        r.path@ == "shared_artifacts/"@ + id@,
        r.query@.len() == 0,
        r.body == CallBody::Empty,
{
    let mut path = "shared_artifacts/".to_owned();
    path.append(id);
    ApiCall { method: HttpMethod::Get, path, query: Vec::new(), body: CallBody::Empty }
}

/// Fetches conversation starters.
pub fn get_conversation_starters() -> (r: ApiCall)
    ensures
        r.method == HttpMethod::Get,
        r.path@ == "conversation-starters"@,
        r.query@.len() == 0,
        r.body == CallBody::Empty,
{
    let path = "conversation-starters".to_owned();
    ApiCall { method: HttpMethod::Get, path, query: Vec::new(), body: CallBody::Empty }
}

/// Fetches follow-up suggestions for the given body.
pub fn fetch_follow_up_suggestions() -> (r: ApiCall)
    ensures
        r.method == HttpMethod::Post,
        r.path@ == "fetch-suggestions"@,
        r.query@.len() == 0,
        r.body == CallBody::Request,
{
    let path = "fetch-suggestions".to_owned();
    ApiCall { method: HttpMethod::Post, path, query: Vec::new(), body: CallBody::Request }
}

/// Lists generated images.
pub fn list_image_generations() -> (r: ApiCall)
    ensures
        r.method == HttpMethod::Get,
        r.path@ == "image-generations"@,
        r.query@.len() == 0,
        r.body == CallBody::Empty,
{
    let path = "image-generations".to_owned();
    ApiCall { method: HttpMethod::Get, path, query: Vec::new(), body: CallBody::Empty }
}

/// Turns text into speech with the given request.
pub fn tts() -> (r: ApiCall)
    ensures
        r.method == HttpMethod::Post,
        r.path@ == "tts"@,
        r.query@.len() == 0,
        r.body == CallBody::Request,
{
    let path = "tts".to_owned();
    ApiCall { method: HttpMethod::Post, path, query: Vec::new(), body: CallBody::Request }
}

/// Posts a voice recording.
pub fn post_voice_recording() -> (r: ApiCall)
    ensures
        r.method == HttpMethod::Post,
        r.path@ == "voice/post-recording"@,
        r.query@.len() == 0,
        r.body == CallBody::Request,
{
    let path = "voice/post-recording".to_owned();
    ApiCall { method: HttpMethod::Post, path, query: Vec::new(), body: CallBody::Request }
}

/// Shares a voice chat with the given request.
pub fn share_voice_chat() -> (r: ApiCall)
    ensures
        r.method == HttpMethod::Post,
        r.path@ == "voice/share"@,
        r.query@.len() == 0,
        r.body == CallBody::Request,
{
    let path = "voice/share".to_owned();
    ApiCall { method: HttpMethod::Post, path, query: Vec::new(), body: CallBody::Request }
}

/// The text `serde_urlencoded` writes for a flag.
pub open spec fn flag_text(b: bool) -> Seq<char> {
    if b {
        "true"@
    } else {
        "false"@
    }
}

fn flag_string(b: bool) -> (r: String)
    ensures
        r@ == flag_text(b),
{
    if b {
        "true".to_owned()
    } else {
        "false".to_owned()
    }
}

/// The query pair `key=value` when the value is there.
pub open spec fn opt_pair(key: Seq<char>, v: Option<Seq<char>>) -> Seq<(Seq<char>, Seq<char>)> {
    match v {
        Some(x) => seq![(key, x)],
        None => seq![],
    }
}

/// The view of an optional number as decimal text.
pub open spec fn opt_number(n: Option<u32>) -> Option<Seq<char>> {
    match n {
        Some(x) => Some(decimal(x as nat)),
        None => None,
    }
}

/// The view of an optional flag as text.
pub open spec fn opt_flag(b: Option<bool>) -> Option<Seq<char>> {
    match b {
        Some(x) => Some(flag_text(x)),
        None => None,
    }
}

/// Appends `key=value` to the query when the value is there.
fn push_opt(q: &mut Vec<(String, String)>, key: &str, v: Option<String>)
    ensures
        query_view(final(q)@) == query_view(old(q)@) + opt_pair(key@, opt_view(v)),
{
    let ghost before = q@;
    match v {
        Some(x) => {
            q.push((key.to_owned(), x));
            assert(query_view(q@) =~= query_view(before) + opt_pair(key@, opt_view(Some(x))));
        },
        None => {
            assert(query_view(q@) =~= query_view(before) + opt_pair(key@, None));
        },
    }
}

fn opt_number_string(n: Option<u32>) -> (r: Option<String>)
    ensures
        opt_view(r) == opt_number(n),
{
    match n {
        Some(x) => {
            let mut s = String::new();
            push_decimal(&mut s, x as u64);
            Some(s)
        },
        None => None,
    }
}

fn opt_text_string(s: Option<&str>) -> (r: Option<String>)
    ensures
        opt_view(r) == opt_str_view(s),
{
    match s {
        Some(x) => Some(x.to_owned()),
        None => None,
    }
}

/// Lists conversations: the page size, page token, starred filter and workspace as
/// `pageSize`, `pageToken`, `filterIsStarred` and `workspaceId`, each when given.
pub fn list_conversations(query: &ListConversationsQuery) -> (r: ApiCall)
    ensures
        r.method == HttpMethod::Get,
        r.path@ == "conversations"@,
        query_view(r.query@) == opt_pair("pageSize"@, opt_number(query.page_size)) + opt_pair(
            "pageToken"@,
            opt_view(query.page_token),
        ) + opt_pair("filterIsStarred"@, opt_flag(query.filter_is_starred)) + opt_pair(
            "workspaceId"@,
            opt_view(query.workspace_id),
        ),
        r.body == CallBody::Empty,
{
    let mut q: Vec<(String, String)> = Vec::new();
    push_opt(&mut q, "pageSize", opt_number_string(query.page_size));
    push_opt(&mut q, "pageToken", query.page_token.clone());
    let starred = match query.filter_is_starred {
        Some(b) => Some(flag_string(b)),
        None => None,
    };
    push_opt(&mut q, "filterIsStarred", starred);
    push_opt(&mut q, "workspaceId", query.workspace_id.clone());
    assert(query_view(q@) =~= opt_pair("pageSize"@, opt_number(query.page_size)) + opt_pair(
        "pageToken"@,
        opt_view(query.page_token),
    ) + opt_pair("filterIsStarred"@, opt_flag(query.filter_is_starred)) + opt_pair(
        "workspaceId"@,
        opt_view(query.workspace_id),
    ));
    ApiCall { method: HttpMethod::Get, path: "conversations".to_owned(), query: q, body: CallBody::Empty }
}

/// Deletes a conversation for good, asking for its media to go too when `delete_media`.
pub fn delete_conversation(id: &ConversationId, delete_media: bool) -> (r: ApiCall)
    ensures
        r.method == HttpMethod::Delete,
        r.path@ == "conversations/"@ + id.0@,
        query_view(r.query@) == if delete_media {
            seq![("deleteMedia"@, "true"@)]
        } else {
            seq![]
        },
        r.body == CallBody::Empty,
{
    let mut path = "conversations/".to_owned();
    path.append(id.0.as_str());
    let mut q: Vec<(String, String)> = Vec::new();
    if delete_media {
        q.push(("deleteMedia".to_owned(), "true".to_owned()));
        assert(query_view(q@) =~= seq![("deleteMedia"@, "true"@)]);
    } else {
        assert(query_view(q@) =~= seq![]);
    }
    ApiCall { method: HttpMethod::Delete, path, query: q, body: CallBody::Empty }
}

/// Restores a deleted conversation; the body names it as `conversationId`.
pub fn restore_conversation(id: &ConversationId) -> (r: ApiCall)
    ensures
        r.method == HttpMethod::Post,
        r.path@ == "conversations/restore"@,
        r.query@.len() == 0,
        r.body matches CallBody::Json(b) && b@ == "{\"conversationId\":"@ + json_string_literal(
            id.0@,
        ) + "}"@,
{
    let mut b = "{\"conversationId\":".to_owned();
    b.append(quote_json(id.0.as_str()).as_str());
    b.append("}");
    ApiCall {
        method: HttpMethod::Post,
        path: "conversations/restore".to_owned(),
        query: Vec::new(),
        body: CallBody::Json(b),
    }
}

/// Lists a conversation's responses, with `includeThreads=true` only when threads are
/// asked for.
pub fn list_responses(id: &ConversationId, include_threads: bool) -> (r: ApiCall)
    ensures
        r.method == HttpMethod::Get,
        r.path@ == "conversations/"@ + id.0@ + "/responses"@,
        query_view(r.query@) == if include_threads {
            seq![("includeThreads"@, "true"@)]
        } else {
            seq![]
        },
        r.body == CallBody::Empty,
{
    let mut path = "conversations/".to_owned();
    path.append(id.0.as_str());
    path.append("/responses");
    let mut q: Vec<(String, String)> = Vec::new();
    if include_threads {
        q.push(("includeThreads".to_owned(), "true".to_owned()));
        assert(query_view(q@) =~= seq![("includeThreads"@, "true"@)]);
    } else {
        assert(query_view(q@) =~= seq![]);
    }
    ApiCall { method: HttpMethod::Get, path, query: q, body: CallBody::Empty }
}

/// A listing with optional `pageSize` and `pageToken`.
fn paged(path: &str, page_size: Option<u32>, page_token: Option<&str>) -> (r: ApiCall)
    ensures
        r.method == HttpMethod::Get,
        r.path@ == path@,
        query_view(r.query@) == opt_pair("pageSize"@, opt_number(page_size)) + opt_pair(
            "pageToken"@,
            opt_str_view(page_token),
        ),
        r.body == CallBody::Empty,
{
    let mut q: Vec<(String, String)> = Vec::new();
    push_opt(&mut q, "pageSize", opt_number_string(page_size));
    push_opt(&mut q, "pageToken", opt_text_string(page_token));
    ApiCall { method: HttpMethod::Get, path: path.to_owned(), query: q, body: CallBody::Empty }
}

/// Lists the deleted conversations, a page at a time.
pub fn list_deleted_conversations(page_size: Option<u32>, page_token: Option<&str>) -> (r: ApiCall)
    ensures
        r.method == HttpMethod::Get,
        r.path@ == "conversations/deleted"@,
        query_view(r.query@) == opt_pair("pageSize"@, opt_number(page_size)) + opt_pair(
            "pageToken"@,
            opt_str_view(page_token),
        ),
        r.body == CallBody::Empty,
{
    paged("conversations/deleted", page_size, page_token)
}

/// Lists the share links, a page at a time.
pub fn list_share_links(page_size: Option<u32>, page_token: Option<&str>) -> (r: ApiCall)
    ensures
        r.method == HttpMethod::Get,
        r.path@ == "share_links"@,
        query_view(r.query@) == opt_pair("pageSize"@, opt_number(page_size)) + opt_pair(
            "pageToken"@,
            opt_str_view(page_token),
        ),
        r.body == CallBody::Empty,
{
    paged("share_links", page_size, page_token)
}

/// Asks for search suggestions, with `query` and `count` when given.
pub fn get_suggestions(query: Option<&str>, count: Option<u32>) -> (r: ApiCall)
    ensures
        r.method == HttpMethod::Get,
        r.path@ == "suggestions"@,
        query_view(r.query@) == opt_pair("query"@, opt_str_view(query)) + opt_pair(
            "count"@,
            opt_number(count),
        ),
        r.body == CallBody::Empty,
{
    let mut q: Vec<(String, String)> = Vec::new();
    push_opt(&mut q, "query", opt_text_string(query));
    push_opt(&mut q, "count", opt_number_string(count));
    ApiCall { method: HttpMethod::Get, path: "suggestions".to_owned(), query: q, body: CallBody::Empty }
}

/// Lists Google Drive files, with `query` when given.
pub fn list_google_drive_files(query: Option<&str>) -> (r: ApiCall)
    ensures
        r.method == HttpMethod::Get,
        r.path@ == "google-drive/files"@,
        query_view(r.query@) == opt_pair("query"@, opt_str_view(query)),
        r.body == CallBody::Empty,
{
    let mut q: Vec<(String, String)> = Vec::new();
    push_opt(&mut q, "query", opt_text_string(query));
    assert(query_view(q@) =~= opt_pair("query"@, opt_str_view(query)));
    ApiCall {
        method: HttpMethod::Get,
        path: "google-drive/files".to_owned(),
        query: q,
        body: CallBody::Empty,
    }
}

/// A voice call to `path`, with `voiceId` when a voice is chosen.
fn voice_call(path: String, voice_id: Option<&VoiceId>) -> (r: ApiCall)
    ensures
        r.method == HttpMethod::Get,
        r.path@ == path@,
        query_view(r.query@) == match voice_id {
            Some(v) => seq![("voiceId"@, v.0@)],
            None => seq![],
        },
        r.body == CallBody::Empty,
{
    let mut q: Vec<(String, String)> = Vec::new();
    match voice_id {
        Some(v) => {
            q.push(("voiceId".to_owned(), v.0.clone()));
            assert(query_view(q@) =~= seq![("voiceId"@, v.0@)]);
        },
        None => {
            assert(query_view(q@) =~= seq![]);
        },
    }
    ApiCall { method: HttpMethod::Get, path, query: q, body: CallBody::Empty }
}

/// Reads a response aloud (a stream), in the chosen voice.
pub fn read_response(response_id: &str, voice_id: Option<&VoiceId>) -> (r: ApiCall)
    ensures
        r.method == HttpMethod::Get,
        r.path@ == "read-response/"@ + response_id@,
        query_view(r.query@) == match voice_id {
            Some(v) => seq![("voiceId"@, v.0@)],
            None => seq![],
        },
        r.body == CallBody::Empty,
{
    let mut path = "read-response/".to_owned();
    path.append(response_id);
    voice_call(path, voice_id)
}

/// Reads a response aloud as an audio file, in the chosen voice.
pub fn read_response_audio(response_id: &str, voice_id: Option<&VoiceId>) -> (r: ApiCall)
    ensures
        r.method == HttpMethod::Get,
        r.path@ == "read-response-audio/"@ + response_id@,
        query_view(r.query@) == match voice_id {
            Some(v) => seq![("voiceId"@, v.0@)],
            None => seq![],
        },
        r.body == CallBody::Empty,
{
    let mut path = "read-response-audio/".to_owned();
    path.append(response_id);
    voice_call(path, voice_id)
}

/// The call that checks whether the session is alive: the first page of one
/// conversation.
pub fn session_probe() -> (r: ApiCall)
    ensures
        r.method == HttpMethod::Get,
        r.path@ == "conversations"@,
        query_view(r.query@) == seq![("pageSize"@, "1"@)],
        r.body == CallBody::Empty,
{
    let mut q: Vec<(String, String)> = Vec::new();
    q.push(("pageSize".to_owned(), "1".to_owned()));
    assert(query_view(q@) =~= seq![("pageSize"@, "1"@)]);
    ApiCall { method: HttpMethod::Get, path: "conversations".to_owned(), query: q, body: CallBody::Empty }
}

} // verus!
