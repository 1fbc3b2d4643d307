//! The OpenAI chat-completions surface: request and response shapes, the aliases under
//! which tools are offered to the model, and how a conversation is written into one
//! prompt.
use vstd::prelude::*;
use crate::json::{
    get_member, get_str_member, json_get, json_get_str, json_items, json_items_of, json_kind_of,
    json_pretty_of, json_scalar, json_string_literal, pretty_json, quote_json, JsonKind, JsonScalar,
};
use crate::text::{chars_of, decimal, join, opt_str_view, opt_view, push_char, push_decimal, str_eq};

verus! {

/// The function a tool call in the history names, with its arguments as JSON text.
#[derive(Debug, Clone)]
pub struct InboundFunctionCall {
    pub name: String,
    pub arguments: String,
}

/// A tool call that an earlier assistant turn made.
#[derive(Debug, Clone)]
pub struct InboundToolCall {
    pub id: String,
    pub function: InboundFunctionCall,
}

/// One message of the conversation sent by the client.
#[derive(Debug, Clone)]
pub struct Message {
    pub role: String,
    pub content: String,
    pub tool_call_id: Option<String>,
    pub tool_calls: Option<Vec<InboundToolCall>>,
}

/// A function the client offers, with its parameter schema as JSON text.
#[derive(Debug, Clone)]
pub struct FunctionDef {
    pub name: String,
    pub description: Option<String>,
    pub parameters: Option<String>,
}

/// A tool the client offers.
#[derive(Debug, Clone)]
pub struct ToolDef {
    pub function: FunctionDef,
}

/// The views of a list of string pairs.
pub open spec fn pair_views(v: Seq<(String, String)>) -> Seq<(Seq<char>, Seq<char>)> {
    v.map_values(|p: (String, String)| (p.0@, p.1@))
}

/// The alias of the `i`-th tool: `fn_` and its index.
pub open spec fn alias_name(i: nat) -> Seq<char> {
    "fn_"@ + decimal(i)
}

/// Each tool's alias paired with its real name, in the order of the tools.
pub open spec fn alias_pairs(tools: Seq<ToolDef>) -> Seq<(Seq<char>, Seq<char>)> {
    Seq::new(tools.len(), |i: int| (alias_name(i as nat), tools[i].function.name@))
}

/// The alias under which the real name `name` is offered: the first pair naming it, or
/// the name itself when no pair does.
pub open spec fn alias_of(pairs: Seq<(Seq<char>, Seq<char>)>, name: Seq<char>) -> Seq<char>
    decreases pairs.len(),
{
    if pairs.len() == 0 {
        name
    } else if pairs[0].1 == name {
        pairs[0].0
    } else {
        alias_of(pairs.drop_first(), name)
    }
}

/// The aliases `fn_0`, `fn_1`, ... of the tools, each paired with the tool's real name.
pub fn alias_map(tools: &Vec<ToolDef>) -> (r: Vec<(String, String)>)
    ensures
        pair_views(r@) == alias_pairs(tools@),
{
    let mut r: Vec<(String, String)> = Vec::new();
    let mut i: usize = 0;
    while i < tools.len()
        invariant
            i <= tools@.len(),
            pair_views(r@) == alias_pairs(tools@).take(i as int),
        decreases tools.len() - i,
    {
        let mut a = "fn_".to_owned();
        push_decimal(&mut a, i as u64);
        let target = tools[i].function.name.clone();
        assert(a@ == alias_name(i as nat));
        assert(target@ == tools@[i as int].function.name@);
        let ghost before = r@;
        r.push((a, target));
        assert(pair_views(r@) =~= pair_views(before).push(alias_pairs(tools@)[i as int]));
        i += 1;
        assert(pair_views(r@) =~= alias_pairs(tools@).take(i as int));
    }
    assert(alias_pairs(tools@).take(tools@.len() as int) =~= alias_pairs(tools@));
    r
}

/// The alias under which the real name `name` is offered (see [`alias_of`]).
pub fn alias_for(alias: &Vec<(String, String)>, name: &str) -> (r: String)
    ensures
        r@ == alias_of(pair_views(alias@), name@),
{
    let ghost pv = pair_views(alias@);
    assert(pv.skip(0) =~= pv);
    let mut i: usize = 0;
    while i < alias.len()
        invariant
            pv == pair_views(alias@),
            i <= alias@.len(),
            alias_of(pv, name@) == alias_of(pv.skip(i as int), name@),
        decreases alias.len() - i,
    {
        assert(pv.skip(i as int)[0] == pv[i as int]);
        if str_eq(alias[i].1.as_str(), name) {
            return alias[i].0.clone();
        }
        assert(pv.skip(i as int).drop_first() =~= pv.skip(i + 1));
        i += 1;
    }
    name.to_owned()
}

/// The line that writes an earlier tool call back into the prompt.
pub open spec fn call_line(c: InboundToolCall, pairs: Seq<(Seq<char>, Seq<char>)>) -> Seq<char> {
    let args = if c.function.arguments@.len() == 0 {
        "{}"@
    } else {
        c.function.arguments@
    };
    "\n<tool_call>{\"id\":\""@ + c.id@ + "\",\"name\":\""@ + alias_of(pairs, c.function.name@)
        + "\",\"arguments\":"@ + args + "}</tool_call>"@
}

/// The lines of several earlier tool calls, in order.
pub open spec fn call_lines(cs: Seq<InboundToolCall>, pairs: Seq<(Seq<char>, Seq<char>)>) -> Seq<
    char,
>
    decreases cs.len(),
{
    if cs.len() == 0 {
        seq![]
    } else {
        call_lines(cs.drop_last(), pairs) + call_line(cs.last(), pairs)
    }
}

/// How one message is written into the prompt: a tool result as a delimited block, an
/// assistant turn with the tool calls it made, anything else as `[role]: content`.
pub open spec fn message_text(m: Message, pairs: Seq<(Seq<char>, Seq<char>)>) -> Seq<char> {
    if m.role@ == "tool"@ {
        let id = match m.tool_call_id {
            Some(i) => i@,
            None => "unknown"@,
        };
        "[tool_result id="@ + id + "]\n"@ + m.content@ + "\n[/tool_result]"@
    } else if m.role@ == "assistant"@ {
        "[assistant]: "@ + m.content@ + match m.tool_calls {
            Some(cs) => call_lines(cs@, pairs),
            None => seq![],
        }
    } else {
        "["@ + m.role@ + "]: "@ + m.content@
    }
}

/// The messages written one after another, a blank line between two.
pub open spec fn history_text(ms: Seq<Message>, pairs: Seq<(Seq<char>, Seq<char>)>) -> Seq<char>
    decreases ms.len(),
{
    if ms.len() == 0 {
        seq![]
    } else {
        let prev = history_text(ms.drop_last(), pairs);
        (if prev.len() == 0 {
            prev
        } else {
            prev + "\n\n"@
        }) + message_text(ms.last(), pairs)
    }
}

/// The messages behind a list of references.
pub open spec fn deref_messages(ms: Seq<&Message>) -> Seq<Message> {
    ms.map_values(|m: &Message| *m)
}

/// Appends the lines of the tool calls `cs` to `out`.
fn push_call_lines(out: &mut String, cs: &Vec<InboundToolCall>, alias: &Vec<(String, String)>)
    ensures
        final(out)@ == old(out)@ + call_lines(cs@, pair_views(alias@)),
{
    let ghost start = out@;
    let mut i: usize = 0;
    while i < cs.len()
        invariant
            i <= cs@.len(),
            out@ == start + call_lines(cs@.take(i as int), pair_views(alias@)),
        decreases cs.len() - i,
    {
        let c = &cs[i];
        let name = alias_for(alias, c.function.name.as_str());
        out.append("\n<tool_call>{\"id\":\"");
        out.append(c.id.as_str());
        out.append("\",\"name\":\"");
        out.append(name.as_str());
        out.append("\",\"arguments\":");
        if c.function.arguments.as_str().is_empty() {
            out.append("{}");
        } else {
            out.append(c.function.arguments.as_str());
        }
        out.append("}</tool_call>");
        assert(cs@.take(i + 1).drop_last() =~= cs@.take(i as int));
        i += 1;
        assert(out@ =~= start + call_lines(cs@.take(i as int), pair_views(alias@)));
    }
    assert(cs@.take(cs@.len() as int) =~= cs@);
}

/// Appends one message as [`message_text`] writes it.
fn push_message(out: &mut String, m: &Message, alias: &Vec<(String, String)>)
    ensures
        final(out)@ == old(out)@ + message_text(*m, pair_views(alias@)),
{
    let ghost start = out@;
    if str_eq(m.role.as_str(), "tool") {
        out.append("[tool_result id=");
        match &m.tool_call_id {
            Some(id) => out.append(id.as_str()),
            None => out.append("unknown"),
        }
        out.append("]\n");
        out.append(m.content.as_str());
        out.append("\n[/tool_result]");
        assert(out@ =~= start + message_text(*m, pair_views(alias@)));
    } else if str_eq(m.role.as_str(), "assistant") {
        out.append("[assistant]: ");
        out.append(m.content.as_str());
        match &m.tool_calls {
            Some(cs) => push_call_lines(out, cs, alias),
            None => {},
        }
        assert(out@ =~= start + message_text(*m, pair_views(alias@)));
    } else {
        out.append("[");
        out.append(m.role.as_str());
        out.append("]: ");
        out.append(m.content.as_str());
        assert(out@ =~= start + message_text(*m, pair_views(alias@)));
    }
}

/// The conversation written as one prompt: each message as [`message_text`] writes it,
/// a blank line between two, tool names replaced by their aliases.
pub fn render_history(messages: &Vec<&Message>, alias: &Vec<(String, String)>) -> (r: String)
    ensures
        r@ == history_text(deref_messages(messages@), pair_views(alias@)),
{
    let ghost ms = deref_messages(messages@);
    let mut out = String::new();
    let mut i: usize = 0;
    while i < messages.len()
        invariant
            ms == deref_messages(messages@),
            i <= messages@.len(),
            out@ == history_text(ms.take(i as int), pair_views(alias@)),
        decreases messages.len() - i,
    {
        let ghost prev = out@;
        if !out.as_str().is_empty() {
            out.append("\n\n");
        }
        push_message(&mut out, messages[i], alias);
        assert(ms.take(i + 1).drop_last() =~= ms.take(i as int));
        assert(ms.take(i + 1).last() == *messages@[i as int]);
        i += 1;
    }
    assert(ms.take(ms.len() as int) =~= ms);
    out
}

/// The text of a message's `content` as JSON: `null` is empty, a string is itself, an
/// array is the concatenation of the string `text` members of its parts; anything else is
/// refused with the value named in the message.
pub open spec fn content_of(json: Seq<char>) -> Result<Seq<char>, Seq<char>> {
    match json_kind_of(json) {
        Some(JsonKind::Null) => Ok(seq![]),
        Some(JsonKind::Str(s)) => Ok(s),
        Some(JsonKind::Array) => Ok(part_texts(json_items_of(json))),
        _ => Err("unsupported content type: "@ + json),
    }
}

/// The string `text` members of the parts, one after another.
pub open spec fn part_texts(parts: Seq<Seq<char>>) -> Seq<char>
    decreases parts.len(),
{
    if parts.len() == 0 {
        seq![]
    } else {
        part_texts(parts.drop_last()) + match json_get_str(parts.last(), "text"@) {
            Some(t) => t,
            None => seq![],
        }
    }
}

/// A message's content given as JSON (see [`content_of`]); the error is the message for
/// the client.
pub fn message_content(json: &str) -> (r: Result<String, String>)
    ensures
        match r {
            Ok(t) => content_of(json@) == Ok::<Seq<char>, Seq<char>>(t@),
            Err(e) => content_of(json@) == Err::<Seq<char>, Seq<char>>(e@),
        },
{
    match json_scalar(json) {
        Some(JsonScalar::Null) => Ok(String::new()),
        Some(JsonScalar::Str(s)) => Ok(s),
        Some(JsonScalar::Array) => {
            let parts = json_items(json);
            let ghost pv = parts@.map_values(|p: String| p@);
            let mut out = String::new();
            let mut i: usize = 0;
            while i < parts.len()
                invariant
                    pv == parts@.map_values(|p: String| p@),
                    pv == json_items_of(json@),
                    i <= parts@.len(),
                    out@ == part_texts(pv.take(i as int)),
                decreases parts.len() - i,
            {
                match get_str_member(parts[i].as_str(), "text") {
                    Some(t) => out.append(t.as_str()),
                    None => {},
                }
                assert(pv.take(i + 1).drop_last() =~= pv.take(i as int));
                i += 1;
            }
            assert(pv.take(pv.len() as int) =~= pv);
            Ok(out)
        },
        _ => {
            let mut e = "unsupported content type: ".to_owned();
            e.append(json);
            Err(e)
        },
    }
}

/// `s` with four spaces after each line break: a pretty-printed value moved two levels in.
pub open spec fn nested_two_levels(s: Seq<char>) -> Seq<char>
    decreases s.len(),
{
    if s.len() == 0 {
        seq![]
    } else {
        nested_two_levels(s.drop_last()) + if s.last() == '\n' {
            "\n    "@
        } else {
            seq![s.last()]
        }
    }
}

/// The parameter schema as it stands inside the pretty-printed list of functions.
pub open spec fn nested_parameters(p: Seq<char>) -> Seq<char> {
    match json_pretty_of(p) {
        Some(t) => nested_two_levels(t),
        None => p,
    }
}

/// One function of the pretty-printed list: its alias, then its description and its
/// parameters where it has them.
pub open spec fn function_json(t: ToolDef, pairs: Seq<(Seq<char>, Seq<char>)>) -> Seq<char> {
    "  {\n    \"name\": "@ + json_string_literal(alias_of(pairs, t.function.name@)) + match t.function.description {
        Some(d) => ",\n    \"description\": "@ + json_string_literal(d@),
        None => seq![],
    } + match t.function.parameters {
        Some(p) => ",\n    \"parameters\": "@ + nested_parameters(p@),
        None => seq![],
    } + "\n  }"@
}

/// The functions on offer as a pretty-printed JSON array, each under its alias.
pub open spec fn functions_json(tools: Seq<ToolDef>, pairs: Seq<(Seq<char>, Seq<char>)>) -> Seq<
    char,
> {
    if tools.len() == 0 {
        "[]"@
    } else {
        "[\n"@ + join(tools.map_values(|t: ToolDef| function_json(t, pairs)), ",\n"@) + "\n]"@
    }
}

/// Appends `s` with four spaces after each line break.
fn push_nested(out: &mut String, s: &str)
    ensures
        final(out)@ == old(out)@ + nested_two_levels(s@),
{
    let v = chars_of(s);
    let ghost start = out@;
    let mut i: usize = 0;
    while i < v.len()
        invariant
            v@ == s@,
            i <= v@.len(),
            out@ == start + nested_two_levels(v@.take(i as int)),
        decreases v.len() - i,
    {
        let ghost before = out@;
        if v[i] == '\n' {
            out.append("\n    ");
        } else {
            push_char(out, v[i]);
        }
        assert(v@.take(i + 1).drop_last() =~= v@.take(i as int));
        i += 1;
        assert(out@ =~= start + nested_two_levels(v@.take(i as int)));
    }
    assert(v@.take(v@.len() as int) =~= v@);
}

/// Appends one function of the list (see [`function_json`]).
fn push_function_json(out: &mut String, t: &ToolDef, alias: &Vec<(String, String)>)
    ensures
        final(out)@ == old(out)@ + function_json(*t, pair_views(alias@)),
{
    let ghost start = out@;
    out.append("  {\n    \"name\": ");
    let name = alias_for(alias, t.function.name.as_str());
    out.append(quote_json(name.as_str()).as_str());
    let ghost mid = out@;
    match &t.function.description {
        Some(d) => {
            out.append(",\n    \"description\": ");
            out.append(quote_json(d.as_str()).as_str());
        },
        None => {},
    }
    let ghost mid2 = out@;
    match &t.function.parameters {
        Some(p) => {
            out.append(",\n    \"parameters\": ");
            match pretty_json(p.as_str()) {
                Some(pretty) => push_nested(out, pretty.as_str()),
                None => out.append(p.as_str()),
            }
        },
        None => {},
    }
    out.append("\n  }");
    assert(out@ =~= start + function_json(*t, pair_views(alias@)));
}

/// The functions on offer as pretty-printed JSON, each under its alias, as
/// `serde_json::to_string_pretty` writes a list of `{name, description, parameters}`
/// objects (absent members left out).
pub fn aliased_specs(tools: &Vec<ToolDef>, alias: &Vec<(String, String)>) -> (r: String)
    ensures
        r@ == functions_json(tools@, pair_views(alias@)),
{
    if tools.len() == 0 {
        return "[]".to_owned();
    }
    let ghost objs = tools@.map_values(|t: ToolDef| function_json(t, pair_views(alias@)));
    let mut body = String::new();
    let mut i: usize = 0;
    while i < tools.len()
        invariant
            objs == tools@.map_values(|t: ToolDef| function_json(t, pair_views(alias@))),
            i <= tools@.len(),
            body@ == join(objs.take(i as int), ",\n"@),
        decreases tools.len() - i,
    {
        if i != 0 {
            body.append(",\n");
        }
        push_function_json(&mut body, &tools[i], alias);
        assert(objs.take(i + 1).drop_last() =~= objs.take(i as int));
        i += 1;
    }
    assert(objs.take(objs.len() as int) =~= objs);
    let mut r = "[\n".to_owned();
    r.append(body.as_str());
    r.append("\n]");
    r
}

/// The directive for a `tool_choice` that forces no particular function.
pub const MUST_CALL: &'static str = "You MUST call at least one function. Do not answer in natural language.";

/// The directive when a function is requested but not named.
pub const CALL_APPROPRIATE: &'static str = "Call a function when appropriate.";

/// The directive by default.
pub const CALL_WHEN_NEEDED: &'static str = "Call a function only when needed to satisfy the user's request.";

/// The instructions before the directive.
pub const TOOL_PREAMBLE: &'static str = "You are connected to a programmatic function-calling interface. Instead of answering directly, you may request that the host program call one of the available functions on your behalf and return the result to you on the next turn.\n\nTo request a function call, include exactly one line with this format per call:\n<tool_call>{\"name\":\"<fn_id>\",\"arguments\":{...}}</tool_call>\nArguments must be a JSON object matching the function's parameter schema. After emitting function-call lines, stop — results will arrive on the next turn. Do not wrap the line in code fences.\n";

/// The example and heading after the directive.
pub const TOOL_EXAMPLE: &'static str = "\n\nExample:\n<tool_call>{\"name\":\"fn_0\",\"arguments\":{\"x\":1}}</tool_call>\n\nAvailable functions:\n";

/// The instructions for a forced call, before the function's alias.
pub const FORCED_INTRO: &'static str = "You are connected to a programmatic function-calling interface. To satisfy this request, call the function \"";

/// The instructions for a forced call, between the two mentions of the alias.
pub const FORCED_LINE: &'static str = "\" exactly once by emitting one line:\n<tool_call>{\"name\":\"";

/// The instructions for a forced call, after the second mention of the alias.
pub const FORCED_TAIL: &'static str = "\",\"arguments\":{...}}</tool_call>\nArguments must be a JSON object matching the schema.\n\nAvailable functions:\n";

/// The function a `tool_choice` forces: an object of `type` `function` whose `function`
/// has a string `name`.
pub open spec fn chosen_function(choice: Option<Seq<char>>) -> Option<Seq<char>> {
    match choice {
        Some(c) => if json_kind_of(c) == Some(JsonKind::Object) && json_get_str(c, "type"@) == Some(
            "function"@,
        ) {
            match json_get(c, "function"@) {
                Some(f) => json_get_str(f, "name"@),
                None => None,
            }
        } else {
            None
        },
        None => None,
    }
}

/// The directive a `tool_choice` calls for when it forces no named function.
pub open spec fn directive_text(choice: Option<Seq<char>>) -> Seq<char> {
    match choice {
        Some(c) => match json_kind_of(c) {
            Some(JsonKind::Str(s)) => if s == "required"@ {
                MUST_CALL@
            } else {
                CALL_WHEN_NEEDED@
            },
            Some(JsonKind::Object) => if json_get_str(c, "type"@) == Some("function"@) {
                CALL_APPROPRIATE@
            } else {
                CALL_WHEN_NEEDED@
            },
            _ => CALL_WHEN_NEEDED@,
        },
        None => CALL_WHEN_NEEDED@,
    }
}

/// The system block that teaches the model the tool-call protocol: for a forced function
/// the call to make, otherwise the protocol, the directive and an example; then the
/// functions on offer.
pub open spec fn tool_block_text(
    tools: Seq<ToolDef>,
    choice: Option<Seq<char>>,
    pairs: Seq<(Seq<char>, Seq<char>)>,
) -> Seq<char> {
    let schema = functions_json(tools, pairs);
    match chosen_function(choice) {
        Some(name) => {
            let a = alias_of(pairs, name);
            FORCED_INTRO@ + a + FORCED_LINE@ + a + FORCED_TAIL@ + schema
        },
        None => TOOL_PREAMBLE@ + directive_text(choice) + TOOL_EXAMPLE@ + schema,
    }
}

/// The function `choice` forces, when it forces one.
fn forced_function(choice: &str) -> (r: Option<String>)
    ensures
        opt_view(r) == chosen_function(Some(choice@)),
{
    match json_scalar(choice) {
        Some(JsonScalar::Object) => {
            match get_str_member(choice, "type") {
                Some(t) => if str_eq(t.as_str(), "function") {
                    match get_member(choice, "function") {
                        Some(f) => get_str_member(f.as_str(), "name"),
                        None => None,
                    }
                } else {
                    None
                },
                None => None,
            }
        },
        _ => None,
    }
}

/// The directive `choice` calls for (see [`directive_text`]).
fn directive_for(choice: Option<&str>) -> (r: &'static str)
    ensures
        r@ == directive_text(opt_str_view(choice)),
{
    match choice {
        Some(c) => match json_scalar(c) {
            Some(JsonScalar::Str(s)) => if str_eq(s.as_str(), "required") {
                MUST_CALL
            } else {
                CALL_WHEN_NEEDED
            },
            Some(JsonScalar::Object) => match get_str_member(c, "type") {
                Some(t) => if str_eq(t.as_str(), "function") {
                    CALL_APPROPRIATE
                } else {
                    CALL_WHEN_NEEDED
                },
                None => CALL_WHEN_NEEDED,
            },
            _ => CALL_WHEN_NEEDED,
        },
        None => CALL_WHEN_NEEDED,
    }
}

/// The system block that teaches the model the tool-call protocol (see
/// [`tool_block_text`]); `tool_choice` is given as JSON text.
pub fn build_tool_system_block(
    tools: &Vec<ToolDef>,
    tool_choice: Option<&str>,
    alias: &Vec<(String, String)>,
) -> (r: String)
    ensures
        r@ == tool_block_text(tools@, opt_str_view(tool_choice), pair_views(alias@)),
{
    let schema = aliased_specs(tools, alias);
    let forced = match tool_choice {
        Some(c) => forced_function(c),
        None => None,
    };
    match forced {
        Some(name) => {
            let a = alias_for(alias, name.as_str());
            let mut out = FORCED_INTRO.to_owned();
            out.append(a.as_str());
            out.append(FORCED_LINE);
            out.append(a.as_str());
            out.append(FORCED_TAIL);
            out.append(schema.as_str());
            out
        },
        None => {
            let mut out = TOOL_PREAMBLE.to_owned();
            out.append(directive_for(tool_choice));
            out.append(TOOL_EXAMPLE);
            out.append(schema.as_str());
            out
        },
    }
}

/// Different tools get different aliases.
pub proof fn lemma_alias_names_distinct(i: nat, j: nat)
    requires
        i != j,
    ensures
        alias_name(i) != alias_name(j),
{
    reveal_strlit("fn_");
    if alias_name(i) == alias_name(j) {
        assert(alias_name(i).skip(3) =~= decimal(i));
        assert(alias_name(j).skip(3) =~= decimal(j));
        crate::text::lemma_decimal_injective(i, j);
    }
}

/// Looking an alias up among the pairs from index `from` on, where the alias is at `i`,
/// finds its tool's name.
pub proof fn lemma_alias_lookup(tools: Seq<ToolDef>, i: int, from: int)
    requires
        0 <= from <= i < tools.len(),
    ensures
        crate::json::member_value(alias_pairs(tools).skip(from), alias_name(i as nat)) == Some(
            tools[i].function.name@,
        ),
    decreases i - from,
{
    let ps = alias_pairs(tools).skip(from);
    assert(ps[0] == alias_pairs(tools)[from]);
    if from < i {
        lemma_alias_names_distinct(from as nat, i as nat);
        assert(ps.drop_first() =~= alias_pairs(tools).skip(from + 1));
        lemma_alias_lookup(tools, i, from + 1);
    }
}

/// The alias given to a name that the `i`-th tool has is that of a tool at or before `i`
/// with the same name.
pub proof fn lemma_alias_of_found(tools: Seq<ToolDef>, name: Seq<char>, i: int, from: int)
    requires
        0 <= from <= i < tools.len(),
        tools[i].function.name@ == name,
    ensures
        exists|j: int|
            from <= j <= i && alias_of(alias_pairs(tools).skip(from), name) == alias_name(
                j as nat,
            ) && #[trigger] tools[j].function.name@ == name,
    decreases i - from,
{
    let ps = alias_pairs(tools).skip(from);
    assert(ps[0] == alias_pairs(tools)[from]);
    if tools[from].function.name@ == name {
        assert(tools[from].function.name@ == name);
    } else {
        assert(ps.drop_first() =~= alias_pairs(tools).skip(from + 1));
        lemma_alias_of_found(tools, name, i, from + 1);
    }
}

/// No message is written as empty text.
pub proof fn lemma_message_text_nonempty(m: Message, pairs: Seq<(Seq<char>, Seq<char>)>)
    ensures
        message_text(m, pairs).len() > 0,
{
    reveal_strlit("[tool_result id=");
    reveal_strlit("[assistant]: ");
    reveal_strlit("[");
}

/// A rendered conversation is its messages, each as [`message_text`] writes it, joined
/// by blank lines.
pub proof fn law_history_is_joined(ms: Seq<Message>, pairs: Seq<(Seq<char>, Seq<char>)>)
    ensures
        history_text(ms, pairs) == join(
            ms.map_values(|m: Message| message_text(m, pairs)),
            "\n\n"@,
        ),
    decreases ms.len(),
{
    let texts = ms.map_values(|m: Message| message_text(m, pairs));
    if ms.len() > 0 {
        law_history_is_joined(ms.drop_last(), pairs);
        lemma_message_text_nonempty(ms.last(), pairs);
        assert(texts.drop_last() =~= ms.drop_last().map_values(|m: Message| message_text(m, pairs)));
        if ms.len() > 1 {
            lemma_message_text_nonempty(ms.drop_last().last(), pairs);
            assert(texts.drop_last().last() == message_text(ms.drop_last().last(), pairs));
            lemma_join_nonempty(texts.drop_last(), "\n\n"@);
        }
    }
}

/// Joining a non-empty list whose last element is not empty gives non-empty text.
proof fn lemma_join_nonempty(list: Seq<Seq<char>>, sep: Seq<char>)
    requires
        list.len() > 0,
        list.last().len() > 0,
    ensures
        join(list, sep).len() > 0,
{
}

/// Only `"required"` forces a call: when `tool_choice` is a JSON string, the tool block's
/// directive is the must-call text exactly when that string is `required`, and the
/// default call-only-when-needed text for any other string (`auto`, `none`, ...); without
/// a `tool_choice` it is the default too.
pub proof fn law_only_required_forces_a_call(
    tools: Seq<ToolDef>,
    choice: Seq<char>,
    s: Seq<char>,
    pairs: Seq<(Seq<char>, Seq<char>)>,
)
    requires
        json_kind_of(choice) == Some(JsonKind::Str(s)),
    ensures
        tool_block_text(tools, Some(choice), pairs) == TOOL_PREAMBLE@ + (if s == "required"@ {
            MUST_CALL@
        } else {
            CALL_WHEN_NEEDED@
        }) + TOOL_EXAMPLE@ + functions_json(tools, pairs),
        tool_block_text(tools, None, pairs) == TOOL_PREAMBLE@ + CALL_WHEN_NEEDED@ + TOOL_EXAMPLE@
            + functions_json(tools, pairs),
{
}

/// A `tool_choice` object of type `function` that names a function forces that function:
/// the block asks for exactly one call to the alias it is offered under, with the functions
/// on offer after it. An object of type `function` that names none gets the
/// call-when-appropriate directive, and any other object, number, boolean, array or
/// `null` the default directive.
pub proof fn law_forced_function_is_called(
    tools: Seq<ToolDef>,
    choice: Seq<char>,
    pairs: Seq<(Seq<char>, Seq<char>)>,
)
    ensures
        json_kind_of(choice) == Some(JsonKind::Object) && json_get_str(choice, "type"@) == Some(
            "function"@,
        ) && (json_get(choice, "function"@) matches Some(f) && json_get_str(f, "name"@) is Some)
            ==> ({
            let name = json_get_str(json_get(choice, "function"@).unwrap(), "name"@).unwrap();
            let a = alias_of(pairs, name);
            tool_block_text(tools, Some(choice), pairs) == FORCED_INTRO@ + a + FORCED_LINE@ + a
                + FORCED_TAIL@ + functions_json(tools, pairs)
        }),
        json_kind_of(choice) == Some(JsonKind::Object) && json_get_str(choice, "type"@) == Some(
            "function"@,
        ) && !(json_get(choice, "function"@) matches Some(f) && json_get_str(f, "name"@) is Some)
            ==> tool_block_text(tools, Some(choice), pairs) == TOOL_PREAMBLE@ + CALL_APPROPRIATE@
            + TOOL_EXAMPLE@ + functions_json(tools, pairs),
        !(json_kind_of(choice) matches Some(JsonKind::Str(_))) && !(json_kind_of(choice) == Some(
            JsonKind::Object,
        ) && json_get_str(choice, "type"@) == Some("function"@)) ==> tool_block_text(
            tools,
            Some(choice),
            pairs,
        ) == TOOL_PREAMBLE@ + CALL_WHEN_NEEDED@ + TOOL_EXAMPLE@ + functions_json(tools, pairs),
{
}

} // verus!
