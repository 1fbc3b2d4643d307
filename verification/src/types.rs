//! Plain data types of the Grok web API: identifiers, enumerations and request bodies.
use vstd::prelude::*;

verus! {

/// Identifier of a conversation.
#[derive(Debug, Clone, PartialEq, Eq, Hash)]
pub struct ConversationId(pub String);

/// Identifier of one response inside a conversation.
#[derive(Debug, Clone, PartialEq, Eq, Hash)]
pub struct ResponseId(pub String);

/// Identifier of a share link.
#[derive(Debug, Clone, PartialEq, Eq, Hash)]
pub struct ShareLinkId(pub String);

/// Identifier of an artifact.
#[derive(Debug, Clone, PartialEq, Eq, Hash)]
pub struct ArtifactId(pub String);

/// Identifier of one version of an artifact.
#[derive(Debug, Clone, PartialEq, Eq, Hash)]
pub struct ArtifactVersionId(pub String);

/// Identifier of a file's metadata.
#[derive(Debug, Clone, PartialEq, Eq, Hash)]
pub struct FileMetadataId(pub String);

/// Identifier of a companion whose memories are kept.
#[derive(Debug, Clone, PartialEq, Eq, Hash)]
pub struct CompanionId(pub String);

/// Identifier of one memory.
#[derive(Debug, Clone, PartialEq, Eq, Hash)]
pub struct MemoryId(pub String);

/// Identifier of a voice.
#[derive(Debug, Clone, PartialEq, Eq, Hash)]
pub struct VoiceId(pub String);

impl ConversationId {
    /// An identifier holding `id`.
    pub fn new(id: &str) -> (r: ConversationId)
        ensures
            r.0@ == id@,
    {
        ConversationId(id.to_owned())
    }

    /// The identifier's text.
    pub fn as_str(&self) -> (r: &str)
        ensures
            r@ == self.0@,
    {
        self.0.as_str()
    }
}

impl ResponseId {
    /// An identifier holding `id`.
    pub fn new(id: &str) -> (r: ResponseId)
        ensures
            r.0@ == id@,
    {
        ResponseId(id.to_owned())
    }

    /// The identifier's text.
    pub fn as_str(&self) -> (r: &str)
        ensures
            r@ == self.0@,
    {
        self.0.as_str()
    }
}

/// A timestamp as the server writes it.
#[derive(Debug, Clone, PartialEq, Eq, Hash)]
pub struct Timestamp(String);

impl View for Timestamp {
    type V = Seq<char>;

    closed spec fn view(&self) -> Seq<char> {
        self.0@
    }
}

impl Timestamp {
    /// A timestamp holding `ts`.
    pub fn new(ts: &str) -> (r: Timestamp)
        ensures
            r@ == ts@,
    {
        Timestamp(ts.to_owned())
    }

    /// The timestamp's text.
    pub fn as_str(&self) -> (r: &str)
        ensures
            r@ == self@,
    {
        self.0.as_str()
    }
}

/// Who wrote a message.
#[derive(Debug, Clone, PartialEq, Eq, Hash)]
pub enum Sender {
    Human,
    Assistant,
    System,
    Other(String),
}

/// Kind of an artifact.
#[derive(Debug, Clone, PartialEq, Eq, Hash)]
pub enum ArtifactType {
    Code,
    Html,
    Svg,
    Mermaid,
    React,
    Other(String),
}

/// How a follow-up message came about.
#[derive(Debug, Clone, PartialEq, Eq, Hash)]
pub enum FollowUpType {
    Suggested,
    Manual,
    Other(String),
}

/// Language of code to run.
#[derive(Debug, Clone, PartialEq, Eq, Hash)]
pub enum CodeLanguage {
    Python,
    JavaScript,
    TypeScript,
    Rust,
    Go,
    Bash,
    Other(String),
}

/// The name a code language is displayed and sent as.
pub open spec fn code_language_text(l: CodeLanguage) -> Seq<char> {
    match l {
        CodeLanguage::Python => "python"@,
        CodeLanguage::JavaScript => "javascript"@,
        CodeLanguage::TypeScript => "typescript"@,
        CodeLanguage::Rust => "rust"@,
        CodeLanguage::Go => "go"@,
        CodeLanguage::Bash => "bash"@,
        CodeLanguage::Other(s) => s@,
    }
}

impl CodeLanguage {
    /// The name this language is displayed as.
    pub fn as_str(&self) -> (r: &str)
        ensures
            r@ == code_language_text(*self),
    {
        match self {
            CodeLanguage::Python => "python",
            CodeLanguage::JavaScript => "javascript",
            CodeLanguage::TypeScript => "typescript",
            CodeLanguage::Rust => "rust",
            CodeLanguage::Go => "go",
            CodeLanguage::Bash => "bash",
            CodeLanguage::Other(s) => s.as_str(),
        }
    }
}

/// A Grok model.
#[derive(Debug, Clone, PartialEq, Eq, Hash)]
pub enum ModelName {
    Grok2,
    Grok3,
    Grok3Mini,
    Grok3MiniFast,
    Grok4,
    Grok4Mini,
    Grok41FastReasoning,
    Grok41FastNonReasoning,
    Grok420Reasoning,
    Grok420NonReasoning,
    Grok420MultiAgent,
    GrokCodeFast1,
    GrokImagineImage,
    GrokImagineImagePro,
    GrokImagineVideo,
    Other(String),
}

/// The identifier a model is sent and displayed as.
pub open spec fn model_name_text(m: ModelName) -> Seq<char> {
    match m {
        ModelName::Grok2 => "grok-2"@,
        ModelName::Grok3 => "grok-3"@,
        ModelName::Grok3Mini => "grok-3-mini"@,
        ModelName::Grok3MiniFast => "grok-3-mini-fast"@,
        ModelName::Grok4 => "grok-4"@,
        ModelName::Grok4Mini => "grok-4-mini"@,
        ModelName::Grok41FastReasoning => "grok-4.1-fast-reasoning"@,
        ModelName::Grok41FastNonReasoning => "grok-4.1-fast-non-reasoning"@,
        ModelName::Grok420Reasoning => "grok-4.20-0309-reasoning"@,
        ModelName::Grok420NonReasoning => "grok-4.20-0309-non-reasoning"@,
        ModelName::Grok420MultiAgent => "grok-4.20-multi-agent-0309"@,
        ModelName::GrokCodeFast1 => "grok-code-fast-1"@,
        ModelName::GrokImagineImage => "grok-imagine-image"@,
        ModelName::GrokImagineImagePro => "grok-imagine-image-pro"@,
        ModelName::GrokImagineVideo => "grok-imagine-video"@,
        ModelName::Other(s) => s@,
    }
}

/// A model outside the known ones is sent and displayed as the identifier it was given,
/// and the default model is `grok-3`.
pub proof fn law_model_identifiers(s: String)
    ensures
        model_name_text(ModelName::Other(s)) == s@,
        model_name_text(ModelName::Grok3) == "grok-3"@,
{
}

impl Default for ModelName {
    /// `grok-3`.
    fn default() -> (r: ModelName)
        ensures
            r == ModelName::Grok3,
    {
        ModelName::Grok3
    }
}

impl ModelName {
    /// The identifier of this model.
    pub fn as_str(&self) -> (r: &str)
        ensures
            r@ == model_name_text(*self),
    {
        match self {
            ModelName::Grok2 => "grok-2",
            ModelName::Grok3 => "grok-3",
            ModelName::Grok3Mini => "grok-3-mini",
            ModelName::Grok3MiniFast => "grok-3-mini-fast",
            ModelName::Grok4 => "grok-4",
            ModelName::Grok4Mini => "grok-4-mini",
            ModelName::Grok41FastReasoning => "grok-4.1-fast-reasoning",
            ModelName::Grok41FastNonReasoning => "grok-4.1-fast-non-reasoning",
            ModelName::Grok420Reasoning => "grok-4.20-0309-reasoning",
            ModelName::Grok420NonReasoning => "grok-4.20-0309-non-reasoning",
            ModelName::Grok420MultiAgent => "grok-4.20-multi-agent-0309",
            ModelName::GrokCodeFast1 => "grok-code-fast-1",
            ModelName::GrokImagineImage => "grok-imagine-image",
            ModelName::GrokImagineImagePro => "grok-imagine-image-pro",
            ModelName::GrokImagineVideo => "grok-imagine-video",
            ModelName::Other(s) => s.as_str(),
        }
    }
}

/// A mode of the grok.com model picker.
#[derive(Debug, Clone, PartialEq, Eq)]
pub enum ModelMode {
    Fast,
    Expert,
    Heavy,
    Auto,
    Grok4MiniThinking,
    Grok41,
    Grok41Thinking,
    Grok41Nightly,
    Grok420,
    Other(String),
}

/// A DeepSearch preset.
#[derive(Debug, Clone, PartialEq, Eq)]
pub enum DeepsearchPreset {
    Deepsearch,
    Deepersearch,
    Think,
    Other(String),
}

/// Body of a quick-answer request.
#[derive(Debug, Clone, PartialEq, Eq)]
pub struct QuickAnswerRequest {
    pub query: String,
}

/// Body of a run-code request.
#[derive(Debug, Clone, PartialEq, Eq)]
pub struct RunCodeRequest {
    pub language: String,
    pub code: String,
}

/// Body of an artifact update.
#[derive(Debug, Clone, PartialEq, Eq)]
pub struct UpdateArtifactRequest {
    pub full_artifact: Option<String>,
    pub artifact_diff: Option<String>,
    pub artifact_version_id: Option<ArtifactVersionId>,
}

/// Body of a conversation update.
#[derive(Debug, Clone, PartialEq, Eq)]
pub struct UpdateConversationRequest {
    pub title: Option<String>,
    pub starred: Option<bool>,
}

/// Body of a file upload.
#[derive(Debug, Clone, PartialEq, Eq)]
pub struct UploadFileRequest {
    pub file_name: String,
    pub file_mime_type: String,
    pub content: String,
    pub make_public: Option<bool>,
    pub file_source: Option<String>,
    pub third_party_file_id: Option<String>,
}

/// Body of a request to share a conversation.
#[derive(Debug, Clone, PartialEq, Eq)]
pub struct ShareConversationRequest {
    pub response_id: Option<ResponseId>,
    pub team_members_to_share: Option<Vec<String>>,
    pub share_with_team_members: Option<bool>,
    pub share_publicly: Option<bool>,
    pub allow_indexing: Option<bool>,
}

/// Answer to a request to share a conversation.
#[derive(Debug, Clone, PartialEq, Eq)]
pub struct ShareConversationResponse {
    pub share_link_id: Option<ShareLinkId>,
}

/// Body of a request to share an artifact.
#[derive(Debug, Clone, PartialEq, Eq)]
pub struct ShareArtifactRequest {
    pub response_id: ResponseId,
    pub artifact_id: ArtifactId,
    pub artifact_version_id: ArtifactVersionId,
}

/// Body of a request to share a voice chat.
#[derive(Debug, Clone, PartialEq, Eq)]
pub struct ShareVoiceChatRequest {
    pub video_bytes: String,
    pub text: String,
}

/// Query of a conversation listing.
#[derive(Debug, Clone, PartialEq, Eq, Default)]
pub struct ListConversationsQuery {
    pub page_size: Option<u32>,
    pub page_token: Option<String>,
    pub filter_is_starred: Option<bool>,
    pub workspace_id: Option<String>,
}

} // verus!
