use grok_web_api::error::{GrokError, RequestFailure};
use grok_web_api::stream::{
    classify_line, collect_full_step, collect_text_step, CollectedResponse, Gather, GrokStream,
    LineEvent, RawConversation, RawError, RawLine, RawResponse, RawResult, StreamChunk,
    WebSearchResult, MAX_LINE_BYTES,
};

fn result_line(result: RawResult) -> RawLine {
    RawLine { result: Some(result), error: None }
}

fn lines_of(parts: &[&[u8]]) -> Vec<String> {
    let mut s = GrokStream::new(());
    let mut out = Vec::new();
    for p in parts {
        assert!(s.on_bytes(p).is_none());
        while let LineEvent::Line(l) = s.next_line() {
            out.push(l);
        }
    }
    if let LineEvent::Line(l) = s.on_end() {
        out.push(l);
    }
    out
}

// {"result":{"token":"hi","isThinking":false,"isSoftStop":false}}
#[test]
fn parses_token_chunk() {
    let line = result_line(RawResult { token: Some("hi".into()), ..Default::default() });
    match classify_line(line, String::new()).unwrap() {
        StreamChunk::Token { text, is_soft_stop } => {
            assert_eq!(text, "hi");
            assert!(!is_soft_stop);
        }
        other => panic!("expected Token, got {other:?}"),
    }
}

// {"result":{"token":"th","isThinking":true}}
#[test]
fn parses_thinking_token() {
    let line = result_line(RawResult { token: Some("th".into()), is_thinking: true, ..Default::default() });
    assert!(matches!(classify_line(line, String::new()).unwrap(), StreamChunk::ThinkingToken { .. }));
}

// {"result":{"token":"","isSoftStop":true}}
#[test]
fn empty_soft_stop_token_is_done() {
    let line = result_line(RawResult { token: Some(String::new()), is_soft_stop: true, ..Default::default() });
    assert!(matches!(classify_line(line, String::new()).unwrap(), StreamChunk::Done));
}

// {"result":{"response":{"token":"hi"}}}
#[test]
fn nested_response_token_extracted() {
    let line = result_line(RawResult {
        response: Some(RawResponse { token: Some("hi".into()), ..Default::default() }),
        ..Default::default()
    });
    assert!(matches!(classify_line(line, String::new()).unwrap(), StreamChunk::Token { .. }));
}

// {"result":{"conversation":{"conversationId":"abc-123"}}}
#[test]
fn conversation_id_extracted() {
    let line = result_line(RawResult {
        conversation: Some(RawConversation { conversation_id: Some("abc-123".into()) }),
        ..Default::default()
    });
    match classify_line(line, String::new()).unwrap() {
        StreamChunk::ConversationCreated { conversation_id } => {
            assert_eq!(conversation_id.as_str(), "abc-123");
        }
        _ => panic!("expected ConversationCreated"),
    }
}

// {"error":{"message":"boom"}}
#[test]
fn error_propagated() {
    let line = RawLine { result: None, error: Some(RawError { message: Some("boom".into()) }) };
    match classify_line(line, String::new()).unwrap() {
        StreamChunk::Error { message } => assert_eq!(message, "boom"),
        _ => panic!("expected Error"),
    }
}

// {}
#[test]
fn empty_result_returns_none() {
    assert!(classify_line(RawLine::default(), "{}".into()).is_none());
}

#[test]
fn stream_handles_split_chunks() {
    let lines = lines_of(&[
        b"{\"result\":{\"token\":\"",
        b"hello\"}}\n{\"result\":{\"token\":\"world\"}}\n",
    ]);
    assert_eq!(lines, vec!["{\"result\":{\"token\":\"hello\"}}", "{\"result\":{\"token\":\"world\"}}"]);
}

#[test]
fn stream_handles_blank_lines() {
    let lines = lines_of(&[b"\n\n{\"result\":{\"token\":\"x\"}}\n\n"]);
    assert_eq!(lines, vec!["{\"result\":{\"token\":\"x\"}}"]);
}

#[test]
fn stream_handles_trailing_no_newline() {
    let lines = lines_of(&[b"{\"result\":{\"token\":\"final\"}}"]);
    assert_eq!(lines, vec!["{\"result\":{\"token\":\"final\"}}"]);
}

#[test]
fn stream_rejects_oversized_line() {
    let big = vec![b'x'; MAX_LINE_BYTES + 1];
    let mut s = GrokStream::new(());
    match s.on_bytes(&big) {
        Some(GrokError::StreamParse(m)) => {
            assert_eq!(m, "NDJSON line exceeds 16777216 bytes without newline")
        }
        other => panic!("expected a parse error, got {other:?}"),
    }
    assert!(s.is_done());
}

#[test]
fn stream_handles_utf8_split_across_chunks() {
    let emoji = "😀".as_bytes();
    assert_eq!(emoji.len(), 4);
    let mut prefix = b"{\"result\":{\"token\":\"".to_vec();
    prefix.extend_from_slice(&emoji[..2]);
    let mut suffix = emoji[2..].to_vec();
    suffix.extend_from_slice(b"\"}}\n");
    let lines = lines_of(&[&prefix, &suffix]);
    assert_eq!(lines, vec!["{\"result\":{\"token\":\"😀\"}}"]);
}

#[test]
fn invalid_utf8_line_is_an_error_and_is_dropped() {
    let mut s = GrokStream::new(());
    assert!(s.on_bytes(b"\xff\xfe\nok\n").is_none());
    match s.next_line() {
        LineEvent::Invalid(GrokError::StreamParse(m)) => {
            assert!(m.starts_with("invalid UTF-8 in NDJSON line: "))
        }
        other => panic!("expected an invalid line, got {other:?}"),
    }
    assert!(matches!(s.next_line(), LineEvent::Line(l) if l == "ok"));
    assert!(matches!(s.next_line(), LineEvent::Empty));
}

#[test]
fn invalid_utf8_tail_is_an_error_at_end() {
    let mut s = GrokStream::new(());
    assert!(s.on_bytes(b"{\xff").is_none());
    match s.on_end() {
        LineEvent::Invalid(GrokError::StreamParse(m)) => {
            assert!(m.starts_with("invalid UTF-8 at end of stream: "))
        }
        other => panic!("expected an invalid tail, got {other:?}"),
    }
    assert!(s.is_done());
}

#[test]
fn transport_error_ends_the_stream() {
    let mut s = GrokStream::new(());
    let e = s.on_transport_error(RequestFailure { message: "reset".into(), is_timeout: false, is_connect: true });
    assert!(matches!(e, GrokError::Request(f) if f.message == "reset"));
    assert!(s.is_done());
}

#[test]
fn search_image_and_unknown_lines_keep_their_text() {
    let search = result_line(RawResult {
        web_search_results: Some(vec![WebSearchResult { title: Some("t".into()), ..Default::default() }]),
        query: Some("q".into()),
        ..Default::default()
    });
    match classify_line(search, "S".into()).unwrap() {
        StreamChunk::WebSearch { query, results, raw } => {
            assert_eq!(query.as_deref(), Some("q"));
            assert_eq!(results.len(), 1);
            assert_eq!(raw, "S");
        }
        other => panic!("expected WebSearch, got {other:?}"),
    }
    let image = result_line(RawResult { generated_image_url: Some("u".into()), ..Default::default() });
    assert!(matches!(classify_line(image, "I".into()).unwrap(), StreamChunk::ImageGenerated { url: Some(u), raw } if u == "u" && raw == "I"));
    let other = result_line(RawResult::default());
    assert!(matches!(classify_line(other, "U".into()).unwrap(), StreamChunk::Unknown(r) if r == "U"));
}

#[test]
fn error_without_message_falls_through_to_result() {
    let line = RawLine {
        result: Some(RawResult { token: Some("t".into()), ..Default::default() }),
        error: Some(RawError { message: None }),
    };
    assert!(matches!(classify_line(line, String::new()).unwrap(), StreamChunk::Token { .. }));
}

#[test]
fn collecting_text_stops_at_done_and_fails_on_error() {
    let mut text = String::new();
    assert_eq!(collect_text_step(&mut text, StreamChunk::Token { text: "a".into(), is_soft_stop: false }).unwrap(), Gather::More);
    assert_eq!(collect_text_step(&mut text, StreamChunk::ThinkingToken { text: "x".into() }).unwrap(), Gather::More);
    assert_eq!(collect_text_step(&mut text, StreamChunk::Token { text: "b".into(), is_soft_stop: true }).unwrap(), Gather::More);
    assert_eq!(collect_text_step(&mut text, StreamChunk::Done).unwrap(), Gather::Complete);
    assert_eq!(text, "ab");
    let err = collect_text_step(&mut text, StreamChunk::Error { message: "bad".into() });
    assert!(matches!(err, Err(GrokError::StreamParse(m)) if m == "bad"));
}

#[test]
fn collecting_full_reply_keeps_id_text_and_thinking() {
    let mut r = CollectedResponse::default();
    let id = grok_web_api::types::ConversationId::new("c-1");
    assert_eq!(collect_full_step(&mut r, StreamChunk::ConversationCreated { conversation_id: id }).unwrap(), Gather::More);
    collect_full_step(&mut r, StreamChunk::ThinkingToken { text: "hm".into() }).unwrap();
    collect_full_step(&mut r, StreamChunk::Token { text: "yes".into(), is_soft_stop: false }).unwrap();
    assert_eq!(collect_full_step(&mut r, StreamChunk::Done).unwrap(), Gather::Complete);
    assert_eq!(r.conversation_id.unwrap().as_str(), "c-1");
    assert_eq!(r.text, "yes");
    assert_eq!(r.thinking, "hm");
}

#[test]
fn chunk_boundaries_do_not_change_the_lines() {
    let bytes: &[u8] = "{\"a\":1}\n\n  {\"b\":\"é\"}\r\n{\"c\":3}".as_bytes();
    let whole = lines_of(&[bytes]);
    assert_eq!(whole, vec!["{\"a\":1}", "{\"b\":\"é\"}", "{\"c\":3}"]);
    for cut in 0..=bytes.len() {
        assert_eq!(lines_of(&[&bytes[..cut], &bytes[cut..]]), whole);
    }
    let singles: Vec<&[u8]> = bytes.chunks(1).collect();
    assert_eq!(lines_of(&singles), whole);
}
