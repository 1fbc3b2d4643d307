use grok_web_api::openai::{
    alias_for, alias_map, aliased_specs, build_tool_system_block, message_content, render_history,
    FunctionDef, InboundFunctionCall, InboundToolCall, Message, ToolDef,
};

fn tool(name: &str) -> ToolDef {
    ToolDef { function: FunctionDef { name: name.into(), description: None, parameters: None } }
}

#[test]
fn render_tool_result_message() {
    let m = Message {
        role: "tool".into(),
        content: "result data".into(),
        tool_call_id: Some("call_123".into()),
        tool_calls: None,
    };
    let out = render_history(&vec![&m], &Vec::new());
    assert!(out.contains("[tool_result id=call_123]"));
    assert!(out.contains("result data"));
}

#[test]
fn render_assistant_tool_calls() {
    let m = Message {
        role: "assistant".into(),
        content: "calling".into(),
        tool_call_id: None,
        tool_calls: Some(vec![InboundToolCall {
            id: "c1".into(),
            function: InboundFunctionCall { name: "foo".into(), arguments: "{\"x\":1}".into() },
        }]),
    };
    let out = render_history(&vec![&m], &Vec::new());
    assert!(out.contains("[assistant]: calling"));
    assert!(out.contains(r#"{"id":"c1","name":"foo","arguments":{"x":1}}"#));
}

#[test]
fn render_history_separates_with_blank_line() {
    let a = Message { role: "user".into(), content: "hi".into(), tool_call_id: None, tool_calls: None };
    let b = Message {
        role: "assistant".into(),
        content: "hello".into(),
        tool_call_id: None,
        tool_calls: None,
    };
    let out = render_history(&vec![&a, &b], &Vec::new());
    assert_eq!(out, "[user]: hi\n\n[assistant]: hello");
}

#[test]
fn tool_block_forces_specific_function() {
    let tools = vec![tool("my_fn")];
    let choice = "{\"type\":\"function\",\"function\":{\"name\":\"my_fn\"}}";
    let alias = alias_map(&tools);
    let block = build_tool_system_block(&tools, Some(choice), &alias);
    assert!(block.contains("fn_0"));
}

#[test]
fn tool_block_required_adds_mandate() {
    let tools = vec![tool("x")];
    let choice = "\"required\"";
    let alias = alias_map(&tools);
    let block = build_tool_system_block(&tools, Some(choice), &alias);
    assert!(block.contains("MUST call at least one function"));
}

#[test]
fn render_tool_result_without_id_and_aliased_calls() {
    let alias = vec![("fn_0".to_owned(), "foo".to_owned())];
    let t = Message { role: "tool".into(), content: "42".into(), tool_call_id: None, tool_calls: None };
    let a = Message {
        role: "assistant".into(),
        content: String::new(),
        tool_call_id: None,
        tool_calls: Some(vec![InboundToolCall {
            id: "c9".into(),
            function: InboundFunctionCall { name: "foo".into(), arguments: String::new() },
        }]),
    };
    let out = render_history(&vec![&a, &t], &alias);
    assert_eq!(
        out,
        "[assistant]: \n<tool_call>{\"id\":\"c9\",\"name\":\"fn_0\",\"arguments\":{}}</tool_call>\n\n[tool_result id=unknown]\n42\n[/tool_result]"
    );
}

#[test]
fn alias_map_numbers_tools_in_order() {
    let alias = alias_map(&vec![tool("a"), tool("b"), tool("c")]);
    assert_eq!(
        alias,
        vec![
            ("fn_0".to_owned(), "a".to_owned()),
            ("fn_1".to_owned(), "b".to_owned()),
            ("fn_2".to_owned(), "c".to_owned()),
        ]
    );
    assert_eq!(alias_for(&alias, "b"), "fn_1");
    assert_eq!(alias_for(&alias, "zzz"), "zzz");
}

#[test]
fn aliased_specs_pretty_prints_each_function() {
    let tools = vec![ToolDef {
        function: FunctionDef {
            name: "get_weather".into(),
            description: Some("Get weather".into()),
            parameters: Some("{\"type\":\"object\",\"properties\":{\"city\":{\"type\":\"string\"}}}".into()),
        },
    }];
    let alias = alias_map(&tools);
    let expected = "[\n  {\n    \"name\": \"fn_0\",\n    \"description\": \"Get weather\",\n    \"parameters\": {\n      \"properties\": {\n        \"city\": {\n          \"type\": \"string\"\n        }\n      },\n      \"type\": \"object\"\n    }\n  }\n]";
    assert_eq!(aliased_specs(&tools, &alias), expected);
    assert_eq!(aliased_specs(&Vec::new(), &Vec::new()), "[]");
}

#[test]
fn tool_block_default_and_forced_texts() {
    let tools = vec![tool("f")];
    let alias = alias_map(&tools);
    let default = build_tool_system_block(&tools, None, &alias);
    assert!(default.starts_with("You are connected to a programmatic function-calling interface. Instead"));
    assert!(default.contains("\nCall a function only when needed to satisfy the user's request.\n\nExample:\n"));
    assert!(default.ends_with("Available functions:\n[\n  {\n    \"name\": \"fn_0\"\n  }\n]"));
    let unnamed = build_tool_system_block(&tools, Some("{\"type\":\"function\"}"), &alias);
    assert!(unnamed.contains("\nCall a function when appropriate.\n"));
    let forced = build_tool_system_block(&tools, Some("{\"type\":\"function\",\"function\":{\"name\":\"f\"}}"), &alias);
    assert!(forced.starts_with(
        "You are connected to a programmatic function-calling interface. To satisfy this request, call the function \"fn_0\" exactly once by emitting one line:\n<tool_call>{\"name\":\"fn_0\",\"arguments\":{...}}</tool_call>\n"
    ));
}

#[test]
fn message_content_forms() {
    assert_eq!(message_content("null"), Ok(String::new()));
    assert_eq!(message_content("\"hi\""), Ok("hi".to_owned()));
    assert_eq!(
        message_content("[{\"type\":\"text\",\"text\":\"a\"},{\"type\":\"image\"},{\"text\":\"b\"}]"),
        Ok("ab".to_owned())
    );
    assert_eq!(message_content("42"), Err("unsupported content type: 42".to_owned()));
}
