use grok_web_api::access::{authorize, constant_time_eq, gate};
use grok_web_api::conversation::NewConversationRequest;
use grok_web_api::types::{DeepsearchPreset, ModelMode, ModelName};
use grok_web_api::api_error::ApiError;
use grok_web_api::completion::{
    closing_events, event_for, SseEvent, StreamFinale, completion_id, completion_response, conversation_request, plan_completion, ChatCompletionRequest, StreamAction, StreamAssembler,
};
use grok_web_api::error::{GrokError, RateLimitType, RequestFailure};
use grok_web_api::models::{format_uptime, get_model, models, upstream_mode};
use grok_web_api::openai::{FunctionDef, Message, ToolDef};
use grok_web_api::routes::{
    raw_forward, raw_path, session_health, DeleteQuery, Deletion, RawForward,
};
use grok_web_api::stream::{line_not_json, line_shape_error, StreamChunk};
use grok_web_api::tools::ParsedToolCall;

fn user(text: &str) -> Message {
    Message { role: "user".into(), content: text.into(), tool_call_id: None, tool_calls: None }
}

fn system(text: &str) -> Message {
    Message { role: "system".into(), content: text.into(), tool_call_id: None, tool_calls: None }
}

fn request(messages: Vec<Message>) -> ChatCompletionRequest {
    ChatCompletionRequest { model: None, messages, stream: false, tools: None, tool_choice: None }
}

fn token(t: &str) -> Result<StreamChunk, GrokError> {
    Ok(StreamChunk::Token { text: t.into(), is_soft_stop: false })
}

#[test]
fn constant_time_eq_is_equality() {
    assert!(constant_time_eq(b"secret", b"secret"));
    assert!(!constant_time_eq(b"secret", b"secreT"));
    assert!(!constant_time_eq(b"secret", b"secret!"));
    assert!(constant_time_eq(b"", b""));
}

#[test]
fn api_key_gate() {
    assert!(authorize(None, None));
    assert!(authorize(Some(""), None));
    assert!(authorize(Some("k1"), Some("Bearer k1")));
    assert!(!authorize(Some("k1"), Some("Bearer k2")));
    assert!(!authorize(Some("k1"), Some("k1")));
    assert!(!authorize(Some("k1"), Some("bearer k1")));
    assert!(!authorize(Some("k1"), None));
}

#[test]
fn error_answers() {
    let e = ApiError::unauthorized();
    assert_eq!((e.error_type, e.title, e.status), ("unauthorized", "Unauthorized", 401));
    assert_eq!(e.detail, "Missing or invalid API key");
    let e = ApiError::bad_request("nope".into());
    assert_eq!((e.error_type, e.status, e.detail.as_str()), ("bad_request", 400, "nope"));
    let e = ApiError::from_grok_error(GrokError::Upstream { status: 403, body: "blocked by anti-bot".into() });
    assert_eq!((e.error_type, e.status), ("anti_bot", 403));
    assert_eq!(
        e.detail,
        "Anti-bot rejected (HTTP 403). Challenge values may be expired. Re-extract from browser: GET /setup"
    );
    let e = ApiError::from_grok_error(GrokError::Upstream { status: 500, body: "oops".into() });
    assert_eq!((e.error_type, e.status, e.detail.as_str()), ("upstream_error", 502, "Grok returned HTTP 500: oops"));
    let e = ApiError::from_grok_error(GrokError::RateLimited {
        message: "slow down".into(),
        wait_seconds: Some(30),
        limit_type: RateLimitType::User,
    });
    assert_eq!((e.error_type, e.status, e.retry_after_seconds), ("rate_limited", 429, Some(30)));
    let e = ApiError::from_grok_error(GrokError::Request(RequestFailure {
        message: "timed out".into(),
        is_timeout: true,
        is_connect: false,
    }));
    assert_eq!((e.error_type, e.status, e.detail.as_str()), ("gateway_timeout", 504, "request error: timed out"));
    let e = ApiError::from_grok_error(GrokError::Request(RequestFailure {
        message: "refused".into(),
        is_timeout: false,
        is_connect: true,
    }));
    assert_eq!((e.error_type, e.status), ("upstream_unavailable", 503));
    let e = ApiError::from_grok_error(GrokError::Request(RequestFailure {
        message: "broken".into(),
        is_timeout: false,
        is_connect: false,
    }));
    assert_eq!((e.error_type, e.status, e.detail.as_str()), ("request_error", 502, "broken"));
    let e = ApiError::from_grok_error(GrokError::AuthExpired);
    assert_eq!((e.error_type, e.status), ("auth_expired", 503));
    let e = ApiError::from_grok_error(GrokError::NotFound("x".into()));
    assert_eq!((e.error_type, e.status), ("not_found", 404));
    let e = ApiError::from_grok_error(GrokError::StreamParse("p".into()));
    assert_eq!((e.error_type, e.status), ("stream_error", 502));
    let e = ApiError::from_grok_error(GrokError::Json("j".into()));
    assert_eq!((e.error_type, e.status), ("json_error", 500));
    let e = ApiError::from_grok_error(GrokError::Config("c".into()));
    assert_eq!((e.error_type, e.status), ("config_error", 500));
    assert_eq!(ApiError::new("t", "T", 42, String::new()).response_status(), 500);
}

#[test]
fn model_catalogue_and_modes() {
    let ids: Vec<&str> = models().iter().map(|m| m.id).collect();
    assert_eq!(ids, vec!["auto", "fast", "expert", "heavy", "grok-4-3"]);
    assert_eq!(get_model("heavy").unwrap().created, 1_720_000_000);
    let e = get_model("grok-2").unwrap_err();
    assert_eq!(e.status, 404);
    assert_eq!(e.detail, "Model 'grok-2' not found. Use GET /v1/models for available models.");
    assert_eq!(upstream_mode("expert"), "expert");
    assert_eq!(upstream_mode("grok-4-3"), "grok-420-computer-use-sa");
    assert_eq!(upstream_mode("gpt-4"), "auto");
}

#[test]
fn uptime_is_written_out() {
    assert_eq!(format_uptime(0), "0h 0m 0s");
    assert_eq!(format_uptime(3725), "1h 2m 5s");
    assert_eq!(format_uptime(90061), "25h 1m 1s");
}

#[test]
fn route_decisions() {
    assert_eq!(raw_path("/raw/rest/app-chat/x"), "rest/app-chat/x");
    assert_eq!(raw_path("/other"), "/other");
    assert_eq!(raw_forward("GET", true), RawForward::Get);
    assert_eq!(raw_forward("GET", false), RawForward::Post { with_body: true });
    assert_eq!(raw_forward("DELETE", true), RawForward::Delete);
    assert_eq!(raw_forward("PUT", false), RawForward::Put);
    assert_eq!(raw_forward("PUT", true), RawForward::Post { with_body: false });
    assert_eq!(DeleteQuery { soft: Some(true), delete_media: Some(true) }.deletion(), Deletion::Soft);
    assert_eq!(DeleteQuery { soft: None, delete_media: Some(true) }.deletion(), Deletion::Hard { delete_media: true });
    assert_eq!(DeleteQuery::default().deletion(), Deletion::Hard { delete_media: false });
    let h = session_health(Ok(false));
    assert_eq!((h.http_status, h.session), (503, "expired"));
    let h = session_health(Err(GrokError::AuthExpired));
    assert_eq!(h.message.as_deref(), Some("authentication failed: cookies expired or invalid"));
}

#[test]
fn plan_single_message_is_sent_as_is() {
    let req = request(vec![system("be brief"), user("hello"), system("and kind")]);
    let plan = plan_completion(&req).unwrap();
    assert_eq!(plan.prompt, "hello");
    assert_eq!(plan.custom_instructions.as_deref(), Some("be brief\n\nand kind"));
    assert_eq!(plan.model, "auto");
    assert_eq!(plan.mode_id, "auto");
    assert!(!plan.tools_enabled);
}

#[test]
fn plan_refuses_only_system_messages() {
    let e = plan_completion(&request(vec![system("x")])).unwrap_err();
    assert_eq!(e.status, 400);
    assert_eq!(e.detail, "messages must contain at least one non-system message");
}

#[test]
fn plan_with_tools_prefixes_the_tool_block() {
    let mut req = request(vec![user("hi"), Message {
        role: "assistant".into(),
        content: "yo".into(),
        tool_call_id: None,
        tool_calls: None,
    }]);
    req.model = Some("grok-4-3".into());
    req.tools = Some(vec![ToolDef {
        function: FunctionDef { name: "lookup".into(), description: None, parameters: None },
    }]);
    let plan = plan_completion(&req).unwrap();
    assert!(plan.tools_enabled);
    assert_eq!(plan.alias, vec![("fn_0".to_owned(), "lookup".to_owned())]);
    assert!(plan.prompt.ends_with("\n\n---\n\n[user]: hi\n\n[assistant]: yo"));
    assert!(plan.prompt.starts_with("You are connected to a programmatic function-calling interface."));
    assert_eq!(plan.model, "grok-4-3");
    assert_eq!(plan.mode_id, "grok-420-computer-use-sa");
    req.tool_choice = Some("\"none\"".into());
    let plan = plan_completion(&req).unwrap();
    assert!(!plan.tools_enabled);
    assert!(plan.alias.is_empty());
    assert_eq!(plan.prompt, "[user]: hi\n\n[assistant]: yo");
}

#[test]
fn streaming_without_tools_forwards_tokens() {
    let mut a = StreamAssembler::new(false);
    assert!(matches!(a.on_event(token("he")), StreamAction::Content(t) if t == "he"));
    assert!(matches!(a.on_event(Ok(StreamChunk::Token { text: String::new(), is_soft_stop: true })), StreamAction::Nothing));
    assert!(matches!(a.on_event(Ok(StreamChunk::ThinkingToken { text: "x".into() })), StreamAction::Nothing));
    assert!(matches!(a.on_event(Err(GrokError::StreamParse("bad".into()))), StreamAction::Nothing));
    assert!(matches!(a.on_event(Err(GrokError::AuthExpired)), StreamAction::ReportError(m) if m == "authentication failed: cookies expired or invalid"));
    assert!(matches!(a.on_event(Ok(StreamChunk::Done)), StreamAction::Stop));
    let fin = a.finish(&Vec::new());
    assert!(fin.content.is_none());
    assert!(fin.calls.is_empty());
    assert_eq!(fin.finish_reason, "stop");
}

#[test]
fn streaming_with_tools_holds_back_calls() {
    let alias = vec![("fn_0".to_owned(), "lookup".to_owned())];
    let mut a = StreamAssembler::new(true);
    assert!(matches!(a.on_event(token("hello <to")), StreamAction::Content(t) if t == "hello "));
    assert!(matches!(a.on_event(token("ol_call>{\"name\":\"fn_0\",")), StreamAction::Nothing));
    assert!(matches!(a.on_event(token("\"arguments\":{}}</tool_call>")), StreamAction::Nothing));
    let fin = a.finish(&alias);
    assert!(fin.content.is_none());
    assert_eq!(fin.calls.len(), 1);
    assert_eq!(fin.calls[0].name, "lookup");
    assert_eq!(fin.finish_reason, "tool_calls");
}

#[test]
fn completion_answer_shape() {
    let r = completion_response("id1".into(), 5, "auto".into(), "hi".into(), Vec::new());
    assert_eq!(r.object, "chat.completion");
    assert_eq!(r.choices[0].message.content.as_deref(), Some("hi"));
    assert!(r.choices[0].message.tool_calls.is_none());
    assert_eq!(r.choices[0].finish_reason, "stop");
    assert_eq!(r.usage.total_tokens, 0);
    let calls = vec![ParsedToolCall { id: "c".into(), name: "f".into(), arguments: "{}".into() }];
    let r = completion_response("id2".into(), 5, "auto".into(), String::new(), calls);
    assert!(r.choices[0].message.content.is_none());
    let tc = r.choices[0].message.tool_calls.as_ref().unwrap();
    assert_eq!((tc[0].id.as_str(), tc[0].kind, tc[0].function.name.as_str()), ("c", "function", "f"));
    assert_eq!(r.choices[0].finish_reason, "tool_calls");
}

#[test]
fn refused_requests_get_the_unauthorized_problem() {
    assert!(gate(None, None).is_ok());
    assert!(gate(Some(""), None).is_ok());
    assert!(gate(Some("k1"), Some("Bearer k1")).is_ok());
    for header in [None, Some("Bearer k2"), Some("k1"), Some("bearer k1")] {
        let e = gate(Some("k1"), header).unwrap_err();
        assert_eq!(e.error_type, "unauthorized");
        assert_eq!(e.title, "Unauthorized");
        assert_eq!(e.status, 401);
        assert_eq!(e.detail, "Missing or invalid API key");
        assert_eq!(e.retry_after_seconds, None);
    }
}

#[test]
fn default_model_is_grok_3() {
    assert_eq!(ModelName::default(), ModelName::Grok3);
    assert_eq!(ModelName::default().as_str(), "grok-3");
}

#[test]
fn completion_ids_are_chatcmpl_and_a_uuid() {
    let id = completion_id();
    assert_eq!(id.len(), 45);
    assert!(id.starts_with("chatcmpl-"));
    let u = uuid::Uuid::parse_str(&id[9..]).unwrap();
    assert_eq!(u.get_version_num(), 4);
    assert_eq!(u.hyphenated().to_string(), &id[9..]);
    assert_ne!(completion_id(), id);
}

#[test]
fn line_errors_are_named_and_passed_over() {
    match line_not_json("expected value at line 1 column 1") {
        GrokError::StreamParse(m) => assert_eq!(m, "failed to parse NDJSON: expected value at line 1 column 1"),
        other => panic!("unexpected {other:?}"),
    }
    match line_shape_error("invalid type") {
        GrokError::StreamParse(m) => assert_eq!(m, "unexpected NDJSON shape: invalid type"),
        other => panic!("unexpected {other:?}"),
    }
    let mut a = StreamAssembler::new(false);
    assert!(matches!(a.on_event(Err(line_not_json("x"))), StreamAction::Nothing));
    assert!(matches!(a.on_event(Err(line_shape_error("y"))), StreamAction::Nothing));
}

#[test]
fn completions_start_a_temporary_conversation() {
    let mut req = request(vec![system("be brief"), user("hello")]);
    req.model = Some("expert".into());
    let plan = plan_completion(&req).unwrap();
    let r = conversation_request(&plan);
    assert_eq!(r.message, "hello");
    assert_eq!(r.temporary, Some(true));
    assert_eq!(r.options.mode_id.as_deref(), Some("expert"));
    assert_eq!(r.options.custom_instructions.as_deref(), Some("be brief"));
    assert!(r.options.model_name.is_none() && r.options.is_reasoning.is_none());
    let plain = conversation_request(&plan_completion(&request(vec![user("hi")])).unwrap());
    assert!(plain.options.custom_instructions.is_none());
    assert_eq!(plain.options.mode_id.as_deref(), Some("auto"));
}

#[test]
fn builder_sets_each_option() {
    let r = NewConversationRequest::builder("hi")
        .model(ModelName::Grok4)
        .custom_instructions("short")
        .temporary(true)
        .reasoning(true)
        .image_generation(2)
        .disable_search()
        .disable_memory()
        .deepsearch(DeepsearchPreset::Think)
        .model_mode(ModelMode::Expert)
        .force_concise()
        .webpage_urls(vec!["https://x".into()])
        .nsfw(false)
        .build();
    assert_eq!(r.message, "hi");
    assert_eq!(r.options.model_name, Some(ModelName::Grok4));
    assert_eq!(r.options.custom_instructions.as_deref(), Some("short"));
    assert_eq!(r.temporary, Some(true));
    assert_eq!(r.options.is_reasoning, Some(true));
    assert_eq!(r.options.enable_image_generation, Some(true));
    assert_eq!(r.options.image_generation_count, Some(2));
    assert_eq!(r.options.disable_search, Some(true));
    assert_eq!(r.options.disable_memory, Some(true));
    assert_eq!(r.options.deepsearch_preset, Some(DeepsearchPreset::Think));
    assert_eq!(r.options.model_mode, Some(ModelMode::Expert));
    assert_eq!(r.options.force_concise, Some(true));
    assert_eq!(r.options.webpage_urls, Some(vec!["https://x".to_owned()]));
    assert_eq!(r.options.enable_nsfw, Some(false));
    assert!(r.options.mode_id.is_none());
    let n = NewConversationRequest::new("m");
    assert!(n.temporary.is_none() && n.options.model_name.is_none());
}

#[test]
fn streamed_answers_close_with_text_calls_finish_and_done() {
    let call = ParsedToolCall { id: "call_1".into(), name: "f".into(), arguments: "{}".into() };
    let events = closing_events(StreamFinale {
        content: Some("left".into()),
        calls: vec![call],
        finish_reason: "tool_calls",
    });
    assert_eq!(events.len(), 4);
    assert!(matches!(&events[0], SseEvent::Content(t) if t == "left"));
    match &events[1] {
        SseEvent::ToolCalls(ts) => {
            assert_eq!(ts.len(), 1);
            assert_eq!(ts[0].id, "call_1");
            assert_eq!(ts[0].kind, "function");
            assert_eq!(ts[0].function.name, "f");
        }
        other => panic!("unexpected {other:?}"),
    }
    assert!(matches!(events[2], SseEvent::Finish("tool_calls")));
    assert!(matches!(events[3], SseEvent::Done));
    let plain = closing_events(StreamFinale { content: None, calls: vec![], finish_reason: "stop" });
    assert!(matches!(plain.as_slice(), [SseEvent::Finish("stop"), SseEvent::Done]));
    assert!(matches!(event_for(StreamAction::Content("x".into())), Some(SseEvent::Content(t)) if t == "x"));
    assert!(matches!(event_for(StreamAction::ReportError("e".into())), Some(SseEvent::Error(t)) if t == "e"));
    assert!(event_for(StreamAction::Nothing).is_none());
    assert!(event_for(StreamAction::Stop).is_none());
}
