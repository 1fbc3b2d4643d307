use grok_web_api::client::{token_pair_from_json, token_request_body};
use grok_web_api::config::{startup_plan, Config};
use grok_web_api::endpoints::{
    delete_conversation, get_conversation, list_conversations, list_deleted_conversations,
    list_responses, read_response, restore_conversation, session_probe, stop_responses, CallBody,
    HttpMethod,
};
use grok_web_api::types::{ConversationId, ListConversationsQuery, VoiceId};

fn pairs(v: &[(&str, &str)]) -> Vec<(String, String)> {
    v.iter().map(|(a, b)| (a.to_string(), b.to_string())).collect()
}

#[test]
fn conversation_calls() {
    let id = ConversationId::new("c1");
    let c = get_conversation(&id);
    assert_eq!((c.method, c.path.as_str()), (HttpMethod::Get, "conversations/c1"));
    let c = delete_conversation(&id, true);
    assert_eq!((c.method, c.path.as_str()), (HttpMethod::Delete, "conversations/c1"));
    assert_eq!(c.query, pairs(&[("deleteMedia", "true")]));
    assert!(delete_conversation(&id, false).query.is_empty());
    let c = restore_conversation(&id);
    assert_eq!(c.body, CallBody::Json("{\"conversationId\":\"c1\"}".to_owned()));
    let c = list_responses(&id, true);
    assert_eq!(c.path, "conversations/c1/responses");
    assert_eq!(c.query, pairs(&[("includeThreads", "true")]));
    assert!(list_responses(&id, false).query.is_empty());
    let c = stop_responses(&id);
    assert_eq!((c.method, c.path.as_str(), c.body), (HttpMethod::Post, "conversations/c1/stop-inflight-responses", CallBody::Null));
}

#[test]
fn listing_queries() {
    let q = ListConversationsQuery { page_size: Some(20), page_token: None, filter_is_starred: Some(false), workspace_id: None };
    assert_eq!(list_conversations(&q).query, pairs(&[("pageSize", "20"), ("filterIsStarred", "false")]));
    let c = list_deleted_conversations(None, Some("t"));
    assert_eq!((c.path.as_str(), c.query.clone()), ("conversations/deleted", pairs(&[("pageToken", "t")])));
    let c = session_probe();
    assert_eq!((c.path.as_str(), c.query.clone()), ("conversations", pairs(&[("pageSize", "1")])));
    let v = VoiceId("v1".into());
    let c = read_response("r1", Some(&v));
    assert_eq!((c.path.as_str(), c.query.clone()), ("read-response/r1", pairs(&[("voiceId", "v1")])));
}

#[test]
fn token_provider_exchange() {
    assert_eq!(token_request_body("/rest/app-chat/x", "POST"), "{\"method\":\"POST\",\"path\":\"/rest/app-chat/x\"}");
    let p = token_pair_from_json("{\"x-statsig-id\":\"abc\",\"x-xai-request-id\":\"rid\"}");
    assert_eq!((p.statsig_id.as_str(), p.request_id.as_str()), ("abc", "rid"));
    let p = token_pair_from_json("{}");
    assert_eq!(p.statsig_id, "");
    assert!(uuid::Uuid::parse_str(&p.request_id).is_ok());
}

#[test]
fn startup_follows_the_configuration() {
    let mut c = Config::default();
    assert!(startup_plan(&c).is_none());
    c.grok_sso_cookie = "s".into();
    let p = startup_plan(&c).unwrap();
    assert!(p.custom_base_url.is_none());
    assert!(p.challenge.is_none());
    assert!(p.warn_no_token_source);
    assert_eq!(p.session_check_secs, 60);
    assert_eq!(p.bind_address, "0.0.0.0:3000");
    c.challenge_header_hex = Some("00".into());
    c.challenge_suffix = Some("sfx".into());
    c.session_check_interval_secs = 5;
    c.grok_base_url = "http://localhost:9".into();
    let p = startup_plan(&c).unwrap();
    assert_eq!(p.challenge, Some(("00".to_owned(), "sfx".to_owned(), 3)));
    assert!(!p.warn_no_token_source);
    assert_eq!(p.session_check_secs, 30);
    assert_eq!(p.custom_base_url.as_deref(), Some("http://localhost:9"));
}

#[test]
fn token_request_body_escapes_like_json() {
    assert_eq!(
        token_request_body("/a\"b\\c\n\t\u{8}\u{c}\r\u{1}\u{1f}é", "GET"),
        "{\"method\":\"GET\",\"path\":\"/a\\\"b\\\\c\\n\\t\\b\\f\\r\\u0001\\u001fé\"}"
    );
}
