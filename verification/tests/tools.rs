use grok_web_api::tools::{
    extract_tool_calls, json_object_end, parse_bare_json_calls, parse_tool_calls, reverse_alias,
    safe_flush_boundary, strip_json_fences, ParsedToolCall,
};

#[test]
fn parses_single_call() {
    let s = "ok, calling\n<tool_call>{\"name\":\"foo\",\"arguments\":{\"x\":1}}</tool_call>";
    let (content, calls) = parse_tool_calls(s);
    assert_eq!(content, "ok, calling");
    assert_eq!(calls.len(), 1);
    assert_eq!(calls[0].name, "foo");
    assert_eq!(calls[0].arguments, "{\"x\":1}");
}

#[test]
fn parses_multiple_calls() {
    let s = "<tool_call>{\"name\":\"a\",\"arguments\":{}}</tool_call><tool_call>{\"name\":\"b\",\"arguments\":{}}</tool_call>";
    let (_, calls) = parse_tool_calls(s);
    assert_eq!(calls.len(), 2);
}

#[test]
fn flush_boundary_holds_partial_open() {
    let b = "hello <tool";
    let n = safe_flush_boundary(b);
    assert_eq!(&b[..n], "hello ");
}

#[test]
fn flush_boundary_holds_full_open() {
    let b = "hello <tool_call>{partial";
    let n = safe_flush_boundary(b);
    assert_eq!(&b[..n], "hello ");
}

#[test]
fn flush_boundary_no_marker() {
    let b = "just text no tags";
    assert_eq!(safe_flush_boundary(b), b.len());
}

#[test]
fn unclosed_tag_kept_as_content() {
    let s = "hello <tool_call>{\"name\":\"a\"";
    let (content, calls) = parse_tool_calls(s);
    assert_eq!(content, s.trim());
    assert!(calls.is_empty());
}

#[test]
fn invalid_json_body_skipped() {
    let s = "<tool_call>not json at all</tool_call>keep";
    let (content, calls) = parse_tool_calls(s);
    assert_eq!(content, "keep");
    assert!(calls.is_empty());
}

#[test]
fn missing_name_skipped() {
    let s = "<tool_call>{\"arguments\":{}}</tool_call>after";
    let (content, calls) = parse_tool_calls(s);
    assert_eq!(content, "after");
    assert!(calls.is_empty());
}

#[test]
fn mixed_content_and_calls() {
    let s = "thinking...\n<tool_call>{\"name\":\"x\",\"arguments\":{\"a\":1}}</tool_call>\ntrailing";
    let (content, calls) = parse_tool_calls(s);
    assert_eq!(content, "thinking...\n\ntrailing");
    assert_eq!(calls.len(), 1);
}

#[test]
fn string_arguments_preserved() {
    let s = "<tool_call>{\"name\":\"x\",\"arguments\":\"{\\\"a\\\":1}\"}</tool_call>";
    let (_, calls) = parse_tool_calls(s);
    assert_eq!(calls.len(), 1);
    assert_eq!(calls[0].arguments, "{\"a\":1}");
}

#[test]
fn id_passed_through_when_present() {
    let s = "<tool_call>{\"id\":\"call_abc\",\"name\":\"x\",\"arguments\":{}}</tool_call>";
    let (_, calls) = parse_tool_calls(s);
    assert_eq!(calls[0].id, "call_abc");
}

#[test]
fn id_auto_generated_when_missing() {
    let s = "<tool_call>{\"name\":\"x\",\"arguments\":{}}</tool_call>";
    let (_, calls) = parse_tool_calls(s);
    assert!(calls[0].id.starts_with("call_"));
}

#[test]
fn parses_without_close_tags_back_to_back() {
    let s = "<tool_call>{\"name\":\"a\",\"arguments\":{\"x\":1}}\n<tool_call>{\"name\":\"b\",\"arguments\":{}}";
    let (content, calls) = parse_tool_calls(s);
    assert_eq!(calls.len(), 2);
    assert_eq!(calls[0].name, "a");
    assert_eq!(calls[1].name, "b");
    assert_eq!(content, "");
}

#[test]
fn parses_without_close_tag_at_eof() {
    let s = "thinking\n<tool_call>{\"name\":\"a\",\"arguments\":{\"x\":1}}";
    let (content, calls) = parse_tool_calls(s);
    assert_eq!(calls.len(), 1);
    assert_eq!(calls[0].name, "a");
    assert_eq!(content, "thinking");
}

#[test]
fn json_object_end_handles_nested_and_strings() {
    assert_eq!(json_object_end("{\"a\":{\"b\":1}}rest"), Some(13));
    assert_eq!(json_object_end("{\"s\":\"has } brace\"}tail"), Some(19));
    assert_eq!(json_object_end("{unterminated"), None);
}

#[test]
fn flush_boundary_utf8_safe() {
    let b = "héllo <to";
    let n = safe_flush_boundary(b);
    assert!(b.is_char_boundary(n));
    assert_eq!(&b[..n], "héllo ");
}

#[test]
fn text_without_tags_is_trimmed_and_has_no_calls() {
    let (content, calls) = parse_tool_calls("  plain answer \n");
    assert_eq!(content, "plain answer");
    assert!(calls.is_empty());
}

#[test]
fn json_object_end_skips_text_before_the_object() {
    assert_eq!(json_object_end("ab{\"k\":\"\\\"}\"}x"), Some(13));
    assert_eq!(json_object_end("no braces"), None);
}

#[test]
fn flush_boundary_multibyte_before_tag() {
    let b = "日本<tool_call>";
    assert_eq!(safe_flush_boundary(b), "日本".len());
}

#[test]
fn fences_removed_in_order() {
    assert_eq!(strip_json_fences("```json\n{}\n```"), "\n{}\n");
    assert_eq!(strip_json_fences("```JSON x ``` y"), " x  y");
    assert_eq!(strip_json_fences("no fences"), "no fences");
}

#[test]
fn bare_calls_need_known_name_and_arguments() {
    let known = vec!["fn_0".to_owned()];
    let text = "sure {\"name\":\"fn_0\",\"arguments\":{\"q\":1}} and {\"name\":\"fn_9\",\"arguments\":{}} {\"name\":\"fn_0\"}";
    let calls = parse_bare_json_calls(text, &known);
    assert_eq!(calls.len(), 1);
    assert_eq!(calls[0].name, "fn_0");
    assert_eq!(calls[0].arguments, "{\"q\":1}");
    assert!(calls[0].id.starts_with("call_"));
}

#[test]
fn reverse_alias_restores_real_names() {
    let alias = vec![("fn_0".to_owned(), "get_weather".to_owned())];
    let mut calls = vec![
        ParsedToolCall { id: "c1".into(), name: "fn_0".into(), arguments: "{}".into() },
        ParsedToolCall { id: "c2".into(), name: "other".into(), arguments: "[]".into() },
    ];
    reverse_alias(&mut calls, &alias);
    assert_eq!(calls[0].name, "get_weather");
    assert_eq!(calls[0].id, "c1");
    assert_eq!(calls[1].name, "other");
    assert_eq!(calls[1].arguments, "[]");
}

#[test]
fn extract_without_tools_keeps_text() {
    let alias = vec![("fn_0".to_owned(), "f".to_owned())];
    let (content, calls) = extract_tool_calls("  <tool_call>{\"name\":\"fn_0\",\"arguments\":{}}</tool_call>".to_owned(), false, &alias);
    assert_eq!(content, "  <tool_call>{\"name\":\"fn_0\",\"arguments\":{}}</tool_call>");
    assert!(calls.is_empty());
}

#[test]
fn extract_with_tools_strips_fences_and_unaliases() {
    let alias = vec![("fn_0".to_owned(), "get_weather".to_owned())];
    let text = "```json\n<tool_call>{\"name\":\"fn_0\",\"arguments\":{\"city\":\"Paris\"}}</tool_call>\n```".to_owned();
    let (content, calls) = extract_tool_calls(text, true, &alias);
    assert_eq!(content, "");
    assert_eq!(calls.len(), 1);
    assert_eq!(calls[0].name, "get_weather");
    assert_eq!(calls[0].arguments, "{\"city\":\"Paris\"}");
}

#[test]
fn extract_falls_back_to_bare_json_and_drops_text() {
    let alias = vec![("fn_0".to_owned(), "lookup".to_owned())];
    let text = "I will call {\"name\":\"fn_0\",\"arguments\":{}} now".to_owned();
    let (content, calls) = extract_tool_calls(text, true, &alias);
    assert_eq!(content, "");
    assert_eq!(calls.len(), 1);
    assert_eq!(calls[0].name, "lookup");
}

#[test]
fn extract_with_tools_but_no_calls_keeps_trimmed_text() {
    let alias = vec![("fn_0".to_owned(), "lookup".to_owned())];
    let (content, calls) = extract_tool_calls(" just words ".to_owned(), true, &alias);
    assert_eq!(content, "just words");
    assert!(calls.is_empty());
}

#[test]
fn made_up_call_ids_are_call_and_a_simple_uuid() {
    let s = "<tool_call>{\"name\":\"x\",\"arguments\":{}}</tool_call>";
    let (_, a) = parse_tool_calls(s);
    let (_, b) = parse_tool_calls(s);
    let rest = &a[0].id["call_".len()..];
    assert_eq!(rest.len(), 32);
    assert!(rest.chars().all(|c| c.is_ascii_digit() || ('a'..='f').contains(&c)));
    assert_eq!(uuid::Uuid::parse_str(rest).unwrap().get_version_num(), 4);
    assert_ne!(a[0].id, b[0].id);
}
