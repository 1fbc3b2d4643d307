//! A chat completion from start to end: how a request becomes one Grok prompt, how the
//! reply is streamed back, and the answer it makes.
use vstd::prelude::*;
use crate::api_error::{problem, ApiError};
use crate::challenge::is_uuid_v4_text;
use crate::conversation::{no_options, ChatOptions, NewConversationRequest};
use crate::json::{json_kind_of, json_scalar, JsonKind, JsonScalar};
use crate::models::{mode_for, upstream_mode};
use crate::openai::{
    alias_map, alias_pairs, build_tool_system_block, deref_messages, history_text,
    pair_views, render_history, tool_block_text, Message, ToolDef,
};
use crate::error::{error_text, GrokError};
use crate::stream::StreamChunk;
use crate::text::{
    chars_of, contains, join, join_strs, opt_str_view, opt_view, str_contains,
    str_eq, string_of_range,
};
use crate::tools::{
    call_agrees, calls_agree, is_fresh_call_id, extract_tool_calls, flush_count, flush_point,
    law_flush_point_is_safe, lemma_may_start_tag_prefix, lemma_may_start_tag_shift,
    may_start_tag, reply_of, CallSpec, ParsedToolCall,
};

verus! {

/// A chat-completion request as the logic reads it; sampling parameters, which Grok does
/// not take, are not kept. `tool_choice` is JSON text.
#[derive(Debug, Clone)]
pub struct ChatCompletionRequest {
    pub model: Option<String>,
    pub messages: Vec<Message>,
    pub stream: bool,
    pub tools: Option<Vec<ToolDef>>,
    pub tool_choice: Option<String>,
}

/// What is sent upstream for a request, and how its reply is to be read.
#[derive(Debug, Clone)]
pub struct CompletionPlan {
    pub prompt: String,
    pub custom_instructions: Option<String>,
    pub model: String,
    pub mode_id: String,
    pub stream: bool,
    pub tools_enabled: bool,
    pub alias: Vec<(String, String)>,
}

/// The messages that are not system messages, in order.
pub open spec fn non_system(ms: Seq<Message>) -> Seq<Message>
    decreases ms.len(),
{
    if ms.len() == 0 {
        seq![]
    } else {
        let prev = non_system(ms.drop_last());
        if ms.last().role@ == "system"@ {
            prev
        } else {
            prev.push(ms.last())
        }
    }
}

/// The contents of the system messages, in order.
pub open spec fn system_contents(ms: Seq<Message>) -> Seq<Seq<char>>
    decreases ms.len(),
{
    if ms.len() == 0 {
        seq![]
    } else {
        let prev = system_contents(ms.drop_last());
        if ms.last().role@ == "system"@ {
            prev.push(ms.last().content@)
        } else {
            prev
        }
    }
}

/// Whether `tool_choice` is the string `none`.
pub open spec fn choice_is_none(choice: Option<Seq<char>>) -> bool {
    match choice {
        Some(c) => json_kind_of(c) == Some(JsonKind::Str("none"@)),
        None => false,
    }
}

/// Whether the request's tools are offered to the model: there are some and
/// `tool_choice` is not `none`.
pub open spec fn tools_on(req: ChatCompletionRequest) -> bool {
    !choice_is_none(opt_view(req.tool_choice)) && match req.tools {
        Some(t) => t@.len() > 0,
        None => false,
    }
}

/// The aliases the tools are offered under (none when tools are off).
pub open spec fn plan_pairs(req: ChatCompletionRequest) -> Seq<(Seq<char>, Seq<char>)> {
    if tools_on(req) {
        alias_pairs(req.tools.unwrap()@)
    } else {
        seq![]
    }
}

/// The conversation as the prompt carries it: a single plain message by its content
/// alone, anything else rendered as a history.
pub open spec fn conversation_text(req: ChatCompletionRequest) -> Seq<char> {
    let ns = non_system(req.messages@);
    if ns.len() == 1 && ns[0].tool_calls is None && ns[0].role@ != "tool"@ {
        ns[0].content@
    } else {
        history_text(ns, plan_pairs(req))
    }
}

/// The prompt sent upstream: with tools on, the tool block, a rule and the conversation;
/// else the conversation alone.
pub open spec fn prompt_text(req: ChatCompletionRequest) -> Seq<char> {
    if tools_on(req) {
        tool_block_text(req.tools.unwrap()@, opt_view(req.tool_choice), plan_pairs(req))
            + "\n\n---\n\n"@ + conversation_text(req)
    } else {
        conversation_text(req)
    }
}

/// The model named in the answer: the requested one, `auto` by default.
pub open spec fn model_of(req: ChatCompletionRequest) -> Seq<char> {
    match req.model {
        Some(m) => m@,
        None => "auto"@,
    }
}

/// The detail when a request has only system messages.
pub open spec fn no_message_detail() -> Seq<char> {
    "messages must contain at least one non-system message"@
}

/// True when `p` is the plan for `req`: the prompt, the system messages joined as custom
/// instructions, the model and the mode sent upstream, and how the reply is read.
pub open spec fn plan_matches(p: CompletionPlan, req: ChatCompletionRequest) -> bool {
    &&& p.prompt@ == prompt_text(req)
    &&& opt_view(p.custom_instructions) == if system_contents(req.messages@).len() > 0 {
        Some(join(system_contents(req.messages@), "\n\n"@))
    } else {
        None
    }
    &&& p.model@ == model_of(req)
    &&& p.mode_id@ == mode_for(model_of(req))
    &&& p.stream == req.stream
    &&& p.tools_enabled == tools_on(req)
    &&& pair_views(p.alias@) == plan_pairs(req)
}

/// Turns a chat-completion request into the Grok request to make (see [`plan_matches`]);
/// a request with no message but system messages is refused.
pub fn plan_completion(req: &ChatCompletionRequest) -> (r: Result<CompletionPlan, ApiError>)
    ensures
        non_system(req.messages@).len() == 0 ==> (r matches Err(e) && e@ == problem(
            "bad_request"@,
            "Bad Request"@,
            400,
            no_message_detail(),
        )),
        non_system(req.messages@).len() > 0 ==> (r matches Ok(p) && plan_matches(p, *req)),
{
    let choice_none = match &req.tool_choice {
        Some(c) => match json_scalar(c.as_str()) {
            Some(JsonScalar::Str(s)) => str_eq(s.as_str(), "none"),
            _ => false,
        },
        None => false,
    };
    assert(choice_none == choice_is_none(opt_view(req.tool_choice)));
    let tools_enabled = !choice_none && match &req.tools {
        Some(t) => t.len() > 0,
        None => false,
    };
    let alias = match &req.tools {
        Some(t) => if tools_enabled {
            alias_map(t)
        } else {
            Vec::new()
        },
        None => Vec::new(),
    };
    assert(pair_views(alias@) =~= plan_pairs(*req));
    let ghost ms = req.messages@;
    let mut rest: Vec<&Message> = Vec::new();
    let mut system: Vec<&str> = Vec::new();
    let mut i: usize = 0;
    while i < req.messages.len()
        invariant
            ms == req.messages@,
            i <= ms.len(),
            deref_messages(rest@) == non_system(ms.take(i as int)),
            system@.map_values(|x: &str| x@) == system_contents(ms.take(i as int)),
        decreases req.messages.len() - i,
    {
        let m = &req.messages[i];
        assert(ms.take(i + 1).drop_last() =~= ms.take(i as int));
        if str_eq(m.role.as_str(), "system") {
            system.push(m.content.as_str());
            assert(system@.map_values(|x: &str| x@) =~= system_contents(ms.take(i + 1)));
        } else {
            rest.push(m);
            assert(deref_messages(rest@) =~= non_system(ms.take(i + 1)));
        }
        i += 1;
    }
    assert(ms.take(ms.len() as int) =~= ms);
    if rest.len() == 0 {
        return Err(
            ApiError::bad_request("messages must contain at least one non-system message".to_owned()),
        );
    }
    let history = if rest.len() == 1 && rest[0].tool_calls.is_none() && !str_eq(
        rest[0].role.as_str(),
        "tool",
    ) {
        rest[0].content.clone()
    } else {
        render_history(&rest, &alias)
    };
    let prompt = match &req.tools {
        Some(t) => if tools_enabled {
            let tc = match &req.tool_choice {
                Some(c) => Some(c.as_str()),
                None => None,
            };
            assert(opt_str_view(tc) == opt_view(req.tool_choice));
            let mut p = build_tool_system_block(t, tc, &alias);
            p.append("\n\n---\n\n");
            p.append(history.as_str());
            p
        } else {
            history
        },
        None => history,
    };
    let custom_instructions = if system.len() > 0 {
        Some(join_strs(&system, "\n\n"))
    } else {
        None
    };
    let model = match &req.model {
        Some(m) => m.clone(),
        None => "auto".to_owned(),
    };
    let mode_id = upstream_mode(model.as_str());
    Ok(
        CompletionPlan {
            prompt,
            custom_instructions,
            model,
            mode_id,
            stream: req.stream,
            tools_enabled,
            alias,
        },
    )
}

/// The conversation a plan starts upstream: the prompt as its message, temporary (kept
/// out of the history), with the plan's mode and custom instructions and no other option.
pub fn conversation_request(plan: &CompletionPlan) -> (r: NewConversationRequest)
    ensures
        r.message@ == plan.prompt@,
        r.temporary == Some(true),
        opt_view(r.options.mode_id) == Some(plan.mode_id@),
        opt_view(r.options.custom_instructions) == opt_view(plan.custom_instructions),
        no_options(ChatOptions { mode_id: None, custom_instructions: None, ..r.options }),
{
    let mut r = NewConversationRequest::new(plan.prompt.as_str());
    r.temporary = Some(true);
    r.options.custom_instructions = match &plan.custom_instructions {
        Some(c) => Some(c.clone()),
        None => None,
    };
    r.options.mode_id = Some(plan.mode_id.clone());
    r
}

/// The state of a streamed answer: whether tools are on, the text held back, all the
/// text received and all the text sent on.
pub ghost struct AssemblerState {
    pub tools_enabled: bool,
    pub buffer: Seq<char>,
    pub received: Seq<char>,
    pub sent: Seq<char>,
}

/// Streams a reply on as it arrives. With tools on, text is held back from the first
/// opening tool tag (or a trailing piece of one) so that calls are never sent as text.
pub struct StreamAssembler {
    tools_enabled: bool,
    buffer: String,
    received: Ghost<Seq<char>>,
    sent: Ghost<Seq<char>>,
}

impl View for StreamAssembler {
    type V = AssemblerState;

    closed spec fn view(&self) -> AssemblerState {
        AssemblerState {
            tools_enabled: self.tools_enabled,
            buffer: self.buffer@,
            received: self.received@,
            sent: self.sent@,
        }
    }
}

/// What to do after an event of the upstream stream.
#[derive(Debug)]
pub enum StreamAction {
    /// Nothing to send.
    Nothing,
    /// Send this text as content.
    Content(String),
    /// Send this message as an error event.
    ReportError(String),
    /// The reply is complete.
    Stop,
}

/// Whether an error message is one of the transient parse errors that are passed over.
pub open spec fn suppressed(msg: Seq<char>) -> bool {
    contains(msg, "unexpected NDJSON shape"@) || contains(msg, "parse error"@)
}

/// Errors in reading the stream's lines (a line that is not JSON, or not a stream line)
/// are passed over in a streamed answer: their message says `parse error`.
pub proof fn law_stream_parse_errors_are_passed_over(e: GrokError)
    requires
        e is StreamParse,
    ensures
        suppressed(error_text(e)),
{
    reveal_strlit("stream parse error: ");
    reveal_strlit("parse error");
    let t = error_text(e);
    assert(t.subrange(7, 18) =~= "parse error"@);
    assert(crate::text::occurs_at(t, "parse error"@, 7));
}

/// The rest of a streamed answer once the upstream stream is over: the remaining text (if
/// any), the tool calls, and the finish reason.
#[derive(Debug)]
pub struct StreamFinale {
    pub content: Option<String>,
    pub calls: Vec<ParsedToolCall>,
    pub finish_reason: &'static str,
}

/// The finish reason of an answer.
pub open spec fn finish_reason_for(has_calls: bool) -> Seq<char> {
    if has_calls {
        "tool_calls"@
    } else {
        "stop"@
    }
}

impl StreamAssembler {
    /// The state invariant: what was sent and what is held back make up exactly what
    /// was received; without tools nothing is held back; with tools no tag can start in
    /// what was sent.
    #[verifier::type_invariant]
    closed spec fn inv(self) -> bool {
        &&& self.sent@ + self.buffer@ == self.received@
        &&& !self.tools_enabled ==> self.buffer@.len() == 0
        &&& self.tools_enabled ==> forall|j: int|
            0 <= j < self.sent@.len() ==> !#[trigger] may_start_tag(self.received@, j)
    }

    /// An assembler before any text.
    pub fn new(tools_enabled: bool) -> (r: Self)
        ensures
            r@ == (AssemblerState {
                tools_enabled,
                buffer: seq![],
                received: seq![],
                sent: seq![],
            }),
    {
        StreamAssembler {
            tools_enabled,
            buffer: String::new(),
            received: Ghost(Seq::empty()),
            sent: Ghost(Seq::empty()),
        }
    }

    /// Takes one event of the upstream stream; afterwards what was sent and what is held
    /// back make up exactly what was received, and with tools on nothing sent could begin
    /// a tool tag, whatever text comes next. A token is received: without tools it is
    /// sent on as it is; with tools the text up to [`flush_point`] of what is held back
    /// is sent. An empty soft-stop token is passed over, the end of the reply stops the
    /// stream, an error is reported unless it is a transient parse error, and other
    /// events are passed over.
    pub fn on_event(&mut self, item: Result<StreamChunk, GrokError>) -> (r: StreamAction)
        ensures
            final(self)@.tools_enabled == old(self)@.tools_enabled,
            final(self)@.sent + final(self)@.buffer == final(self)@.received,
            !final(self)@.tools_enabled ==> final(self)@.buffer.len() == 0,
            final(self)@.tools_enabled ==> forall|j: int|
                0 <= j < final(self)@.sent.len() ==> !#[trigger] may_start_tag(
                    final(self)@.received,
                    j,
                ),
            match item {
                Ok(StreamChunk::Token { text, is_soft_stop }) => if is_soft_stop && text@.len()
                    == 0 {
                    r is Nothing && final(self)@ == old(self)@
                } else {
                    &&& final(self)@.received == old(self)@.received + text@
                    &&& if old(self)@.tools_enabled {
                        let held = old(self)@.buffer + text@;
                        let k = flush_point(held);
                        if k > 0 {
                            &&& r matches StreamAction::Content(piece)
                            &&& piece@ == held.take(k)
                            &&& final(self)@.buffer == held.skip(k)
                            &&& final(self)@.sent == old(self)@.sent + piece@
                        } else {
                            r is Nothing && final(self)@.buffer == held && final(self)@.sent
                                == old(self)@.sent
                        }
                    } else {
                        &&& r matches StreamAction::Content(piece)
                        &&& piece@ == text@
                        &&& final(self)@.buffer.len() == 0
                        &&& final(self)@.sent == old(self)@.sent + text@
                    }
                },
                Ok(StreamChunk::Done) => r is Stop && final(self)@ == old(self)@,
                Ok(_) => r is Nothing && final(self)@ == old(self)@,
                Err(e) => final(self)@ == old(self)@ && if suppressed(error_text(e)) {
                    r is Nothing
                } else {
                    r matches StreamAction::ReportError(m) && m@ == error_text(e)
                },
            },
    {
        proof {
            use_type_invariant(&*self);
        }
        match item {
            Ok(StreamChunk::Token { text, is_soft_stop }) => {
                if is_soft_stop && text.as_str().is_empty() {
                    return StreamAction::Nothing;
                }
                if self.tools_enabled {
                    let mut held = String::new();
                    held.append(self.buffer.as_str());
                    held.append(text.as_str());
                    let v = chars_of(held.as_str());
                    let k = flush_count(&v);
                    if k > 0 {
                        let piece = string_of_range(&v, 0, k);
                        let rest = string_of_range(&v, k, v.len());
                        assert(v@.subrange(0, k as int) =~= v@.take(k as int));
                        assert(v@.subrange(k as int, v@.len() as int) =~= v@.skip(k as int));
                        let ghost sent = self.sent@ + piece@;
                        let ghost received = self.received@ + text@;
                        assert(sent + rest@ =~= received);
                        proof {
                            let old_sent = self.sent@;
                            let h = held@;
                            law_flush_point_is_safe(h);
                            assert(received =~= old_sent + h);
                            assert forall|j: int| 0 <= j < sent.len() implies !#[trigger] may_start_tag(
                                received,
                                j,
                            ) by {
                                if j < old_sent.len() {
                                    if may_start_tag(received, j) {
                                        lemma_may_start_tag_prefix(self.received@, text@, j);
                                    }
                                } else {
                                    lemma_may_start_tag_shift(old_sent, h, j - old_sent.len());
                                }
                            }
                        }
                        *self = StreamAssembler {
                            tools_enabled: true,
                            buffer: rest,
                            received: Ghost(received),
                            sent: Ghost(sent),
                        };
                        StreamAction::Content(piece)
                    } else {
                        let ghost received = self.received@ + text@;
                        assert(self.sent@ + held@ =~= received);
                        proof {
                            assert forall|j: int| 0 <= j < self.sent@.len() implies !#[trigger] may_start_tag(
                                received,
                                j,
                            ) by {
                                if may_start_tag(received, j) {
                                    lemma_may_start_tag_prefix(self.received@, text@, j);
                                }
                            }
                        }
                        let ghost sent = self.sent@;
                        *self = StreamAssembler {
                            tools_enabled: true,
                            buffer: held,
                            received: Ghost(received),
                            sent: Ghost(sent),
                        };
                        StreamAction::Nothing
                    }
                } else {
                    let ghost received = self.received@ + text@;
                    let ghost sent = self.sent@ + text@;
                    assert(sent =~= received);
                    *self = StreamAssembler {
                        tools_enabled: false,
                        buffer: String::new(),
                        received: Ghost(received),
                        sent: Ghost(sent),
                    };
                    StreamAction::Content(text)
                }
            },
            Ok(StreamChunk::Done) => StreamAction::Stop,
            Ok(_) => StreamAction::Nothing,
            Err(e) => {
                let msg = e.message();
                if str_contains(msg.as_str(), "unexpected NDJSON shape") || str_contains(
                    msg.as_str(),
                    "parse error",
                ) {
                    StreamAction::Nothing
                } else {
                    StreamAction::ReportError(msg)
                }
            },
        }
    }

    /// Ends the stream: the text held back is read as a finished reply (see
    /// [`reply_of`]); its text is sent when not empty, its tool calls after it, and the
    /// finish reason says whether there were calls.
    pub fn finish(self, alias: &Vec<(String, String)>) -> (r: StreamFinale)
        ensures
            ({
                let rep = reply_of(self@.buffer, self@.tools_enabled, pair_views(alias@));
                &&& opt_view(r.content) == if rep.0.len() == 0 {
                    None
                } else {
                    Some(rep.0)
                }
                &&& calls_agree(r.calls@, rep.1)
                &&& r.finish_reason@ == finish_reason_for(rep.1.len() > 0)
            }),
    {
        let StreamAssembler { tools_enabled, buffer, .. } = self;
        let (content, calls) = extract_tool_calls(buffer, tools_enabled, alias);
        let finish_reason = if calls.len() > 0 {
            "tool_calls"
        } else {
            "stop"
        };
        let content = if content.as_str().is_empty() {
            None
        } else {
            Some(content)
        };
        StreamFinale { content, calls, finish_reason }
    }
}

/// An event of a streamed answer. The answer opens with [`SseEvent::Role`], goes on with
/// the event for each action of [`StreamAssembler::on_event`] (see [`event_for`]), and
/// closes with [`closing_events`].
#[derive(Debug)]
pub enum SseEvent {
    /// The chunk that names the assistant's role.
    Role,
    /// A chunk with a piece of the text.
    Content(String),
    /// The chunk with the tool calls, in order (each is sent with its index).
    ToolCalls(Vec<OutboundToolCall>),
    /// The chunk with the finish reason.
    Finish(&'static str),
    /// An error event with this message.
    Error(String),
    /// The closing `[DONE]`.
    Done,
}

/// The event sent for an action of the assembler: text as a content chunk, an error as an
/// error event, and nothing for the others.
pub fn event_for(action: StreamAction) -> (r: Option<SseEvent>)
    ensures
        match action {
            StreamAction::Content(t) => r matches Some(SseEvent::Content(c)) && c@ == t@,
            StreamAction::ReportError(m) => r matches Some(SseEvent::Error(e)) && e@ == m@,
            _ => r is None,
        },
{
    match action {
        StreamAction::Content(t) => Some(SseEvent::Content(t)),
        StreamAction::ReportError(m) => Some(SseEvent::Error(m)),
        _ => None,
    }
}

/// The events that close a streamed answer: the remaining text when there is some, the
/// tool calls when there are some, the finish reason, and `[DONE]`.
pub fn closing_events(finale: StreamFinale) -> (r: Vec<SseEvent>)
    ensures
        ({
            let n = if finale.content is Some { 1int } else { 0 };
            let m = if finale.calls@.len() > 0 { 1int } else { 0 };
            &&& r@.len() == n + m + 2
            &&& finale.content matches Some(t) ==> (r@[0] matches SseEvent::Content(c) && c@ == t@)
            &&& finale.calls@.len() > 0 ==> (r@[n] matches SseEvent::ToolCalls(ts) && ts@.len()
                == finale.calls@.len() && forall|i: int|
                0 <= i < ts@.len() ==> outbound_matches(#[trigger] ts@[i], finale.calls@[i]))
            &&& r@[n + m] matches SseEvent::Finish(f) && f@ == finale.finish_reason@
            &&& r@[n + m + 1] is Done
        }),
{
    let StreamFinale { content, calls, finish_reason } = finale;
    let mut r: Vec<SseEvent> = Vec::new();
    match content {
        Some(t) => r.push(SseEvent::Content(t)),
        None => {},
    }
    if calls.len() > 0 {
        r.push(SseEvent::ToolCalls(outbound_calls(calls)));
    }
    r.push(SseEvent::Finish(finish_reason));
    r.push(SseEvent::Done);
    r
}

/// The function of a tool call in an answer.
#[derive(Debug, Clone, PartialEq, Eq)]
pub struct OutboundFunctionCall {
    pub name: String,
    pub arguments: String,
}

/// A tool call in an answer; its kind is always `function`.
#[derive(Debug, Clone, PartialEq, Eq)]
pub struct OutboundToolCall {
    pub id: String,
    pub kind: &'static str,
    pub function: OutboundFunctionCall,
}

/// The assistant's message in an answer.
#[derive(Debug, Clone, PartialEq, Eq)]
pub struct ResponseMessage {
    pub role: &'static str,
    pub content: Option<String>,
    pub tool_calls: Option<Vec<OutboundToolCall>>,
}

/// The one choice of an answer.
#[derive(Debug, Clone, PartialEq, Eq)]
pub struct Choice {
    pub index: u32,
    pub message: ResponseMessage,
    pub finish_reason: &'static str,
}

/// Token counts; Grok reports none, so they are zero.
#[derive(Debug, Clone, Copy, PartialEq, Eq)]
pub struct Usage {
    pub prompt_tokens: u64,
    pub completion_tokens: u64,
    pub total_tokens: u64,
}

/// A complete (non-streamed) chat-completion answer.
#[derive(Debug, Clone, PartialEq, Eq)]
pub struct ChatCompletionResponse {
    pub id: String,
    pub object: &'static str,
    pub created: u64,
    pub model: String,
    pub choices: [Choice; 1],
    pub usage: Usage,
}

/// True when `o` answers the tool call `c`.
pub open spec fn outbound_matches(o: OutboundToolCall, c: ParsedToolCall) -> bool {
    &&& o.id@ == c.id@
    &&& o.kind@ == "function"@
    &&& o.function.name@ == c.name@
    &&& o.function.arguments@ == c.arguments@
}

/// True when `o` answers a call that `s` determines.
pub open spec fn outbound_agrees(o: OutboundToolCall, s: CallSpec) -> bool {
    &&& o.kind@ == "function"@
    &&& o.function.name@ == s.name
    &&& o.function.arguments@ == s.arguments
    &&& match s.id {
        Some(i) => o.id@ == i,
        None => is_fresh_call_id(o.id@),
    }
}

/// The tool calls as the answer carries them, in order.
pub fn outbound_calls(calls: Vec<ParsedToolCall>) -> (r: Vec<OutboundToolCall>)
    ensures
        r@.len() == calls@.len(),
        forall|i: int| 0 <= i < calls@.len() ==> outbound_matches(#[trigger] r@[i], calls@[i]),
{
    let mut r: Vec<OutboundToolCall> = Vec::new();
    let mut i: usize = 0;
    while i < calls.len()
        invariant
            i <= calls@.len(),
            r@.len() == i,
            forall|j: int| 0 <= j < i ==> outbound_matches(#[trigger] r@[j], calls@[j]),
        decreases calls.len() - i,
    {
        let c = &calls[i];
        r.push(
            OutboundToolCall {
                id: c.id.clone(),
                kind: "function",
                function: OutboundFunctionCall { name: c.name.clone(), arguments: c.arguments.clone() },
            },
        );
        i += 1;
    }
    r
}

/// The answer with the given id, creation time, model, text and tool calls: the text
/// only when not empty, the calls only when there are some, the finish reason
/// `tool_calls` or `stop` accordingly, and zero token counts.
pub fn completion_response(
    id: String,
    created: u64,
    model: String,
    content: String,
    calls: Vec<ParsedToolCall>,
) -> (r: ChatCompletionResponse)
    ensures
        r.id@ == id@,
        r.object@ == "chat.completion"@,
        r.created == created,
        r.model@ == model@,
        r.choices[0].index == 0,
        r.choices[0].message.role@ == "assistant"@,
        opt_view(r.choices[0].message.content) == if content@.len() == 0 {
            None
        } else {
            Some(content@)
        },
        calls@.len() == 0 ==> r.choices[0].message.tool_calls is None,
        calls@.len() > 0 ==> (r.choices[0].message.tool_calls matches Some(ts) && ts@.len()
            == calls@.len() && forall|i: int|
            0 <= i < calls@.len() ==> outbound_matches(#[trigger] ts@[i], calls@[i])),
        r.choices[0].finish_reason@ == finish_reason_for(calls@.len() > 0),
        r.usage == (Usage { prompt_tokens: 0, completion_tokens: 0, total_tokens: 0 }),
{
    let has_calls = calls.len() > 0;
    let tool_calls = if has_calls {
        Some(outbound_calls(calls))
    } else {
        None
    };
    let content = if content.as_str().is_empty() {
        None
    } else {
        Some(content)
    };
    ChatCompletionResponse {
        id,
        object: "chat.completion",
        created,
        model,
        choices: [
            Choice {
                index: 0,
                message: ResponseMessage { role: "assistant", content, tool_calls },
                finish_reason: if has_calls {
                    "tool_calls"
                } else {
                    "stop"
                },
            },
        ],
        usage: Usage { prompt_tokens: 0, completion_tokens: 0, total_tokens: 0 },
    }
}

/// Whether `id` is `chatcmpl-` followed by the hyphenated text of a random UUID.
pub open spec fn is_completion_id(id: Seq<char>) -> bool {
    id.len() == 45 && id.subrange(0, 9) == "chatcmpl-"@ && is_uuid_v4_text(id.subrange(9, 45))
}

/// A fresh completion id: `chatcmpl-` and a random UUID.
pub fn completion_id() -> (r: String)
    ensures
        is_completion_id(r@),
{
    let mut id = "chatcmpl-".to_owned();
    proof {
        reveal_strlit("chatcmpl-");
    }
    let ghost prefix = id@;
    id.append(crate::challenge::new_request_id().as_str());
    assert(id@.subrange(0, 9) =~= prefix);
    assert(id@ =~= "chatcmpl-"@ + id@.subrange(9, 45));
    id
}

/// The answer to a request whose reply came in whole: the reply is read (see
/// [`reply_of`]) and answered under a fresh id, at the present time.
pub fn answer_reply(plan: &CompletionPlan, reply: String) -> (r: ChatCompletionResponse)
    ensures
        ({
            let rep = reply_of(reply@, plan.tools_enabled, pair_views(plan.alias@));
            &&& is_completion_id(r.id@)
            &&& r.model@ == plan.model@
            &&& r.object@ == "chat.completion"@
            &&& r.choices[0].index == 0
            &&& r.choices[0].message.role@ == "assistant"@
            &&& r.usage == (Usage { prompt_tokens: 0, completion_tokens: 0, total_tokens: 0 })
            &&& opt_view(r.choices[0].message.content) == if rep.0.len() == 0 {
                None
            } else {
                Some(rep.0)
            }
            &&& rep.1.len() == 0 ==> r.choices[0].message.tool_calls is None
            &&& rep.1.len() > 0 ==> (r.choices[0].message.tool_calls matches Some(ts)
                && ts@.len() == rep.1.len() && forall|i: int|
                0 <= i < ts@.len() ==> outbound_agrees(#[trigger] ts@[i], rep.1[i]))
            &&& r.choices[0].finish_reason@ == finish_reason_for(rep.1.len() > 0)
        }),
{
    let (content, calls) = extract_tool_calls(reply, plan.tools_enabled, &plan.alias);
    let ghost cs = calls@;
    let id = completion_id();
    let created = crate::clock::now_secs();
    let r = completion_response(id, created, plan.model.clone(), content, calls);
    proof {
        let rep = reply_of(reply@, plan.tools_enabled, pair_views(plan.alias@));
        if rep.1.len() > 0 {
            let ts = r.choices[0].message.tool_calls.unwrap();
            assert forall|i: int| 0 <= i < ts@.len() implies outbound_agrees(
                #[trigger] ts@[i],
                rep.1[i],
            ) by {
                assert(outbound_matches(ts@[i], cs[i]));
                assert(call_agrees(cs[i], rep.1[i]));
            }
        }
    }
    r
}

} // verus!
