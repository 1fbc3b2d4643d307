//! Function calling over a plain-text chat: how tool calls are written into the model's
//! output, and how they are found again.
use vstd::prelude::*;
use vstd::string::StringSliceAdditionalSpecFns;
use crate::json::{
    get_member, get_str_member, json_get, json_get_str, json_kind_of, json_scalar, member_value,
    JsonKind, JsonScalar,
};
use crate::openai::{
    alias_name, alias_of, alias_pairs, lemma_alias_lookup, lemma_alias_of_found, pair_views, ToolDef,
};
use crate::text::{
    chars_of, find_from, find_seq_from, lemma_find_from, occurs_at, push_range, starts_with, str_eq,
    string_of_range, trim, trim_bounds, trim_string, utf8_len_of_prefix,
};

use crate::challenge::{is_uuid_v4_text, uuid_simple_of};

verus! {

/// The tag that opens a tool call: `<tool_call>`.
pub open spec fn tool_open() -> Seq<char> {
    seq!['<', 't', 'o', 'o', 'l', '_', 'c', 'a', 'l', 'l', '>']
}

/// The tag that closes a tool call: `</tool_call>`.
pub open spec fn tool_close() -> Seq<char> {
    seq!['<', '/', 't', 'o', 'o', 'l', '_', 'c', 'a', 'l', 'l', '>']
}

/// The opening tag as characters.
pub fn open_tag() -> (r: Vec<char>)
    ensures
        r@ == tool_open(),
{
    let r = vec!['<', 't', 'o', 'o', 'l', '_', 'c', 'a', 'l', 'l', '>'];
    assert(r@ =~= tool_open());
    r
}

/// The closing tag as characters.
pub fn close_tag() -> (r: Vec<char>)
    ensures
        r@ == tool_close(),
{
    let r = vec!['<', '/', 't', 'o', 'o', 'l', '_', 'c', 'a', 'l', 'l', '>'];
    assert(r@ =~= tool_close());
    r
}

/// The role a byte plays when a JSON object is delimited: 1 `{`, 2 `}`, 3 `"`, 4 `\`,
/// 0 anything else.
pub open spec fn byte_role(b: u8) -> u8 {
    if b == 123 {
        1
    } else if b == 125 {
        2
    } else if b == 34 {
        3
    } else if b == 92 {
        4
    } else {
        0
    }
}

/// The role a character plays when a JSON object is delimited (as [`byte_role`]).
pub open spec fn char_role(c: char) -> u8 {
    if c == '{' {
        1
    } else if c == '}' {
        2
    } else if c == '"' {
        3
    } else if c == '\\' {
        4
    } else {
        0
    }
}

/// The end (one past the closing brace) of the object whose scan reached index `i` at
/// nesting `depth`, inside a string or not and right after a backslash or not.
pub open spec fn object_end_scan(roles: Seq<u8>, i: int, depth: int, in_str: bool, esc: bool) -> Option<int>
    decreases roles.len() - i,
{
    if i < 0 || i >= roles.len() {
        None
    } else if in_str {
        if esc {
            object_end_scan(roles, i + 1, depth, true, false)
        } else if roles[i] == 4 {
            object_end_scan(roles, i + 1, depth, true, true)
        } else if roles[i] == 3 {
            object_end_scan(roles, i + 1, depth, false, false)
        } else {
            object_end_scan(roles, i + 1, depth, true, false)
        }
    } else if roles[i] == 3 {
        object_end_scan(roles, i + 1, depth, true, false)
    } else if roles[i] == 1 {
        object_end_scan(roles, i + 1, depth + 1, false, false)
    } else if roles[i] == 2 {
        if depth - 1 == 0 {
            Some(i + 1)
        } else {
            object_end_scan(roles, i + 1, depth - 1, false, false)
        }
    } else {
        object_end_scan(roles, i + 1, depth, false, false)
    }
}

/// Index of the first `{` (role 1) at or after `i`.
pub open spec fn first_open_brace(roles: Seq<u8>, i: int) -> Option<int>
    decreases roles.len() - i,
{
    if i < 0 || i >= roles.len() {
        None
    } else if roles[i] == 1 {
        Some(i)
    } else {
        first_open_brace(roles, i + 1)
    }
}

/// One past the brace that closes the first `{`, braces inside strings not counted.
pub open spec fn object_end(roles: Seq<u8>) -> Option<int> {
    match first_open_brace(roles, 0) {
        Some(start) => object_end_scan(roles, start, 0, false, false),
        None => None,
    }
}

/// The roles of a byte sequence.
pub open spec fn byte_roles(b: Seq<u8>) -> Seq<u8> {
    b.map_values(|x: u8| byte_role(x))
}

/// The roles of a character sequence.
pub open spec fn char_roles(s: Seq<char>) -> Seq<u8> {
    s.map_values(|c: char| char_role(c))
}

/// Byte offset one past the brace that closes the first `{` of `s`, braces inside JSON
/// strings not counted; `None` when there is no `{` or it is never closed.
pub fn json_object_end(s: &str) -> (r: Option<usize>)
    ensures
        match r {
            Some(k) => object_end(byte_roles(s.spec_bytes())) == Some(k as int),
            None => object_end(byte_roles(s.spec_bytes())) is None,
        },
{
    let b = s.as_bytes();
    let ghost roles = byte_roles(b@);
    let n = b.len();
    let mut start: usize = 0;
    while start < n && b[start] != 123
        invariant
            n == b@.len(),
            roles == byte_roles(b@),
            start <= n,
            first_open_brace(roles, 0) == first_open_brace(roles, start as int),
        decreases n - start,
    {
        start += 1;
    }
    if start >= n {
        return None;
    }
    let mut depth: usize = 0;
    let mut in_str = false;
    let mut esc = false;
    let mut i = start;
    while i < n
        invariant
            n == b@.len(),
            b@ == s.spec_bytes(),
            roles == byte_roles(b@),
            start < n,
            roles[start as int] == 1,
            start <= i <= n,
            i > start ==> depth >= 1,
            i == start ==> depth == 0 && !in_str && !esc,
            !in_str ==> !esc,
            depth <= i,
            object_end(roles) == object_end_scan(roles, i as int, depth as int, in_str, esc),
        decreases n - i,
    {
        let c = b[i];
        assert(roles[i as int] == byte_role(c));
        if in_str {
            if esc {
                esc = false;
            } else if c == 92 {
                esc = true;
            } else if c == 34 {
                in_str = false;
            }
        } else if c == 34 {
            in_str = true;
        } else if c == 123 {
            depth += 1;
        } else if c == 125 {
            if depth == 1 {
                assert(object_end_scan(roles, i as int, depth as int, in_str, esc) == Some(
                    i as int + 1,
                ));
                return Some(i + 1);
            }
            depth -= 1;
        }
        i += 1;
    }
    None
}

/// Index (within `v`) one past the brace that closes the first `{` of `v[lo..]`, braces
/// inside JSON strings not counted.
pub fn object_end_in(v: &Vec<char>, lo: usize) -> (r: Option<usize>)
    requires
        lo <= v@.len(),
    ensures
        match r {
            Some(k) => object_end(char_roles(v@.subrange(lo as int, v@.len() as int))) == Some(
                k - lo,
            ) && lo < k <= v@.len(),
            None => object_end(char_roles(v@.subrange(lo as int, v@.len() as int))) is None,
        },
{
    let n = v.len();
    let ghost roles = char_roles(v@.subrange(lo as int, n as int));
    let mut start: usize = lo;
    while start < n && v[start] != '{'
        invariant
            n == v@.len(),
            lo <= start <= n,
            roles == char_roles(v@.subrange(lo as int, n as int)),
            first_open_brace(roles, 0) == first_open_brace(roles, start - lo),
        decreases n - start,
    {
        start += 1;
    }
    if start >= n {
        return None;
    }
    let mut depth: usize = 0;
    let mut in_str = false;
    let mut esc = false;
    let mut i = start;
    while i < n
        invariant
            n == v@.len(),
            roles == char_roles(v@.subrange(lo as int, n as int)),
            lo <= start < n,
            roles[start - lo] == 1,
            start <= i <= n,
            i > start ==> depth >= 1,
            i == start ==> depth == 0 && !in_str && !esc,
            !in_str ==> !esc,
            depth <= i,
            object_end(roles) == object_end_scan(roles, i - lo, depth as int, in_str, esc),
        decreases n - i,
    {
        let c = v[i];
        assert(roles[i - lo] == char_role(c)) by {
            assert(v@.subrange(lo as int, n as int)[i - lo] == v@[i as int]);
        }
        if in_str {
            if esc {
                esc = false;
            } else if c == '\\' {
                esc = true;
            } else if c == '"' {
                in_str = false;
            }
        } else if c == '"' {
            in_str = true;
        } else if c == '{' {
            depth += 1;
        } else if c == '}' {
            if depth == 1 {
                return Some(i + 1);
            }
            depth -= 1;
        }
        i += 1;
    }
    None
}

/// True when the text from `i` on is a non-empty start of the opening tag at most ten
/// characters long (so more text could still complete the tag).
pub open spec fn partial_open_at(s: Seq<char>, i: int) -> bool {
    0 <= i < s.len() && s.len() - i <= 10 && starts_with(tool_open(), s.subrange(i, s.len() as int))
}

/// The first index at or after `i` from which the text is a partial opening tag.
pub open spec fn first_partial_open(s: Seq<char>, i: int) -> Option<int>
    decreases s.len() + 1 - i,
{
    if i < 0 || i >= s.len() {
        None
    } else if partial_open_at(s, i) {
        Some(i)
    } else {
        first_partial_open(s, i + 1)
    }
}

/// How much of a streamed buffer can be sent without splitting a tool call: everything
/// before the first opening tag, or else everything before a trailing partial tag.
pub open spec fn flush_point(s: Seq<char>) -> int {
    match find_from(s, tool_open(), 0) {
        Some(k) => k,
        None => match first_partial_open(s, if s.len() >= 10 { s.len() - 10 } else { 0 }) {
            Some(i) => i,
            None => s.len() as int,
        },
    }
}

/// Number of characters at the start of `v` that can be sent (see [`flush_point`]).
pub fn flush_count(v: &Vec<char>) -> (r: usize)
    ensures
        r == flush_point(v@),
        r <= v@.len(),
{
    let open = open_tag();
    proof {
        lemma_find_from(v@, tool_open(), 0);
    }
    match find_seq_from(v, &open, 0) {
        Some(k) => k,
        None => {
            let n = v.len();
            let mut i: usize = if n >= 10 {
                n - 10
            } else {
                0
            };
            let ghost i0 = i as int;
            while i < n
                invariant
                    n == v@.len(),
                    open@ == tool_open(),
                    find_from(v@, tool_open(), 0) is None,
                    i <= n,
                    first_partial_open(v@, i0) == first_partial_open(v@, i as int),
                    i0 == if v@.len() >= 10 { v@.len() - 10 } else { 0 },
                decreases n - i,
            {
                let tail = crate::text::slice_chars(v, i, n);
                let tl = tail.len();
                if tl <= 10 && crate::text::has_prefix_at(&open, 0, 11, &tail) {
                    assert(open@.subrange(0, 11) =~= open@);
                    assert(partial_open_at(v@, i as int));
                    assert(first_partial_open(v@, i as int) == Some(i as int));
                    return i;
                }
                assert(open@.subrange(0, 11) =~= open@);
                i += 1;
            }
            n
        },
    }
}

/// Byte offset up to which a streamed buffer can be sent without splitting a tool call:
/// the UTF-8 length of the first [`flush_point`] characters.
pub fn safe_flush_boundary(buf: &str) -> (r: usize)
    ensures
        r == vstd::utf8::encode_utf8(buf@.take(flush_point(buf@))).len(),
        vstd::utf8::is_char_boundary(buf.spec_bytes(), r as int),
{
    let v = chars_of(buf);
    let k = flush_count(&v);
    proof {
        crate::text::lemma_encode_prefix_monotone(v@, k as int, v@.len() as int);
        assert(v@.take(v@.len() as int) =~= v@);
        assert(buf.spec_bytes() == vstd::utf8::encode_utf8(buf@));
    }
    let b = buf.as_bytes();
    let _ = b.len();
    proof {
        crate::text::lemma_prefix_ends_at_boundary(buf@, k as int);
    }
    utf8_len_of_prefix(&v, k)
}


/// A scan that finds the end of an object ends after where it started and within the text.
pub proof fn lemma_object_end_scan_bounds(roles: Seq<u8>, i: int, depth: int, in_str: bool, esc: bool)
    requires
        0 <= i,
    ensures
        object_end_scan(roles, i, depth, in_str, esc) matches Some(k) ==> i < k <= roles.len(),
    decreases roles.len() - i,
{
    if i < roles.len() {
        lemma_object_end_scan_bounds(roles, i + 1, depth, true, false);
        lemma_object_end_scan_bounds(roles, i + 1, depth, true, true);
        lemma_object_end_scan_bounds(roles, i + 1, depth, false, false);
        lemma_object_end_scan_bounds(roles, i + 1, depth + 1, false, false);
        lemma_object_end_scan_bounds(roles, i + 1, depth - 1, false, false);
    }
}

/// The first `{` found is within the text.
pub proof fn lemma_first_open_brace_bounds(roles: Seq<u8>, i: int)
    requires
        0 <= i,
    ensures
        first_open_brace(roles, i) matches Some(k) ==> i <= k < roles.len(),
    decreases roles.len() - i,
{
    if i < roles.len() && roles[i] != 1 {
        lemma_first_open_brace_bounds(roles, i + 1);
    }
}

/// An object end, when there is one, is one past a position of the text.
pub proof fn lemma_object_end_bounds(roles: Seq<u8>)
    ensures
        object_end(roles) matches Some(k) ==> 0 < k <= roles.len(),
{
    lemma_first_open_brace_bounds(roles, 0);
    if let Some(st) = first_open_brace(roles, 0) {
        lemma_object_end_scan_bounds(roles, st, 0, false, false);
    }
}

/// A tool call as it is answered: an id, the function's name, and its arguments as JSON
/// text.
#[derive(Debug, Clone, PartialEq, Eq)]
pub struct ParsedToolCall {
    pub id: String,
    pub name: String,
    pub arguments: String,
}

/// What a tool-call body determines of the call: the id (when the body gives one as a
/// string; otherwise a fresh `call_` id is made up), the name, and the arguments.
pub ghost struct CallSpec {
    pub id: Option<Seq<char>>,
    pub name: Seq<char>,
    pub arguments: Seq<char>,
}

/// The arguments of a call: a string member as the string itself, any other member as
/// its compact JSON, and `{}` when there is none.
pub open spec fn arguments_text(member: Option<Seq<char>>) -> Seq<char> {
    match member {
        None => "{}"@,
        Some(t) => match json_kind_of(t) {
            Some(JsonKind::Str(s)) => s,
            _ => t,
        },
    }
}

/// The call a body describes: it must be JSON and name a function with a non-empty
/// string `name`.
pub open spec fn call_of(body: Seq<char>) -> Option<CallSpec> {
    if json_kind_of(body) is None {
        None
    } else {
        let name = match json_get_str(body, "name"@) {
            Some(n) => n,
            None => seq![],
        };
        if name.len() == 0 {
            None
        } else {
            Some(
                CallSpec {
                    id: json_get_str(body, "id"@),
                    name,
                    arguments: arguments_text(json_get(body, "arguments"@)),
                },
            )
        }
    }
}

/// Whether `id` is a made-up call id: `call_` and the simple (hyphen-free) form of a
/// random UUID.
pub open spec fn is_fresh_call_id(id: Seq<char>) -> bool {
    exists|u: Seq<char>| is_uuid_v4_text(u) && id == "call_"@ + uuid_simple_of(u)
}

/// True when the call `c` is the one `s` determines.
pub open spec fn call_agrees(c: ParsedToolCall, s: CallSpec) -> bool {
    &&& c.name@ == s.name
    &&& c.arguments@ == s.arguments
    &&& match s.id {
        Some(i) => c.id@ == i,
        None => is_fresh_call_id(c.id@),
    }
}

/// True when the calls `cs` are, one by one, those `ss` determines.
pub open spec fn calls_agree(cs: Seq<ParsedToolCall>, ss: Seq<CallSpec>) -> bool {
    cs.len() == ss.len() && forall|i: int| 0 <= i < cs.len() ==> call_agrees(#[trigger] cs[i], ss[i])
}

/// The id a call body gives as a string, or else a fresh `call_` id.
fn call_id(body: &str) -> (r: String)
    ensures
        match json_get_str(body@, "id"@) {
            Some(i) => r@ == i,
            None => is_fresh_call_id(r@),
        },
{
    match get_str_member(body, "id") {
        Some(i) => i,
        None => {
            let mut i = "call_".to_owned();
            proof {
                reveal_strlit("call_");
            }
            let fresh = crate::challenge::fresh_uuid();
            i.append(fresh.1.as_str());
            assert(is_uuid_v4_text(fresh.0@) && i@ == "call_"@ + uuid_simple_of(fresh.0@));
            i
        },
    }
}

/// The arguments a call body gives (see [`arguments_text`]).
fn call_arguments(body: &str) -> (r: String)
    ensures
        r@ == arguments_text(json_get(body@, "arguments"@)),
{
    match get_member(body, "arguments") {
        None => "{}".to_owned(),
        Some(m) => match json_scalar(m.as_str()) {
            Some(JsonScalar::Str(s)) => s,
            _ => m,
        },
    }
}

/// The name a call body gives as a string, or the empty string.
fn call_name(body: &str) -> (r: String)
    ensures
        r@ == match json_get_str(body@, "name"@) {
            Some(n) => n,
            None => seq![],
        },
{
    match get_str_member(body, "name") {
        Some(n) => n,
        None => String::new(),
    }
}

/// The call a body describes, with a fresh `call_` id when the body gives none.
pub fn call_from_body(body: &str) -> (r: Option<ParsedToolCall>)
    ensures
        match call_of(body@) {
            None => r is None,
            Some(s) => r matches Some(c) && call_agrees(c, s),
        },
{
    if json_scalar(body).is_none() {
        return None;
    }
    let name = call_name(body);
    if name.as_str().is_empty() {
        return None;
    }
    let id = call_id(body);
    let arguments = call_arguments(body);
    Some(ParsedToolCall { id, name, arguments })
}

/// Where the body of a tool call that starts at `bs` ends: at the closing tag if it
/// comes before any further opening tag, else one past the JSON object that starts the
/// body.
pub open spec fn body_end(t: Seq<char>, bs: int) -> Option<int> {
    let by_object = match object_end(char_roles(t.subrange(bs, t.len() as int))) {
        Some(k) => Some(bs + k),
        None => None,
    };
    match find_from(t, tool_close(), bs) {
        Some(c) => match find_from(t, tool_open(), bs) {
            Some(n) => if c < n {
                Some(c)
            } else {
                by_object
            },
            None => Some(c),
        },
        None => by_object,
    }
}

/// What scanning for tool calls from `cur` on yields: the text outside calls, the calls,
/// and whether the scan stopped at a call whose end could not be found.
pub ghost struct ToolScan {
    pub content: Seq<char>,
    pub calls: Seq<CallSpec>,
    pub unclosed: bool,
}

/// The scan for tool calls from index `cur` of `t`.
pub open spec fn tool_scan(t: Seq<char>, cur: int) -> ToolScan
    decreases t.len() + 1 - cur,
{
    if cur < 0 || cur > t.len() {
        ToolScan { content: seq![], calls: seq![], unclosed: false }
    } else {
        match find_from(t, tool_open(), cur) {
            None => ToolScan { content: t.subrange(cur, t.len() as int), calls: seq![], unclosed: false },
            Some(open) => {
                let bs = open + 11;
                match body_end(t, bs) {
                    None => ToolScan {
                        content: t.subrange(cur, t.len() as int),
                        calls: seq![],
                        unclosed: true,
                    },
                    Some(e) => {
                        proof {
                            lemma_body_end_bounds(t, cur);
                        }
                        let next = if find_from(t, tool_close(), bs) == Some(e) {
                            e + 12
                        } else {
                            e
                        };
                        let rest = tool_scan(t, next);
                        let here = match call_of(trim(t.subrange(bs, e))) {
                            Some(c) => seq![c],
                            None => seq![],
                        };
                        ToolScan {
                            content: t.subrange(cur, open) + rest.content,
                            calls: here + rest.calls,
                            unclosed: rest.unclosed,
                        }
                    },
                }
            },
        }
    }
}

/// The body of a call found from `cur` ends after its opening tag and within the text,
/// and so does the point where the scan goes on.
pub proof fn lemma_body_end_bounds(t: Seq<char>, cur: int)
    requires
        0 <= cur <= t.len(),
    ensures
        find_from(t, tool_open(), cur) matches Some(open) ==> (cur <= open && open + 11 <= t.len()
            && (body_end(t, open + 11) matches Some(e) ==> open + 11 <= e <= t.len() && (find_from(
            t,
            tool_close(),
            open + 11,
        ) == Some(e) ==> e + 12 <= t.len()))),
{
    lemma_find_from(t, tool_open(), cur);
    if let Some(open) = find_from(t, tool_open(), cur) {
        let bs = open + 11;
        lemma_find_from(t, tool_close(), bs);
        lemma_find_from(t, tool_open(), bs);
        lemma_object_end_bounds(char_roles(t.subrange(bs, t.len() as int)));
    }
}

/// The text outside tool calls (trimmed, unless the scan stopped at an unclosed call) and
/// the calls, in order.
pub open spec fn tool_calls_in(t: Seq<char>) -> (Seq<char>, Seq<CallSpec>) {
    let o = tool_scan(t, 0);
    (if o.unclosed {
        o.content
    } else {
        trim(o.content)
    }, o.calls)
}

/// Splits model output into its text and the tool calls written in it as
/// `<tool_call>{json}</tool_call>` (the closing tag may be missing when the JSON object
/// ends the body). Bodies that are not JSON or name no function are dropped.
pub fn parse_tool_calls(text: &str) -> (r: (String, Vec<ParsedToolCall>))
    ensures
        r.0@ == tool_calls_in(text@).0,
        calls_agree(r.1@, tool_calls_in(text@).1),
{
    let t = chars_of(text);
    let n = t.len();
    let open_v = open_tag();
    let close_v = close_tag();
    let mut content = String::new();
    let mut calls: Vec<ParsedToolCall> = Vec::new();
    let ghost mut specs: Seq<CallSpec> = seq![];
    let mut cursor: usize = 0;
    loop
        invariant
            t@ == text@,
            n == t@.len(),
            open_v@ == tool_open(),
            close_v@ == tool_close(),
            cursor <= n,
            calls_agree(calls@, specs),
            tool_scan(t@, 0) == (ToolScan {
                content: content@ + tool_scan(t@, cursor as int).content,
                calls: specs + tool_scan(t@, cursor as int).calls,
                unclosed: tool_scan(t@, cursor as int).unclosed,
            }),
        decreases n + 1 - cursor,
    {
        proof {
            lemma_body_end_bounds(t@, cursor as int);
        }
        match find_seq_from(&t, &open_v, cursor) {
            None => {
                push_range(&mut content, &t, cursor, n);
                assert(tool_scan(t@, 0).content =~= content@);
                assert(tool_scan(t@, 0).calls =~= specs);
                let out = trim_string(content.as_str());
                return (out, calls);
            },
            Some(open) => {
                push_range(&mut content, &t, cursor, open);
                let bs = open + 11;
                let close = find_seq_from(&t, &close_v, bs);
                let nxt = find_seq_from(&t, &open_v, bs);
                let be: Option<usize> = match close {
                    Some(c) => match nxt {
                        Some(x) => if c < x {
                            Some(c)
                        } else {
                            object_end_in(&t, bs)
                        },
                        None => Some(c),
                    },
                    None => object_end_in(&t, bs),
                };
                assert(match be {
                    Some(e) => body_end(t@, bs as int) == Some(e as int),
                    None => body_end(t@, bs as int) is None,
                });
                match be {
                    None => {
                        let ghost before = content@;
                        push_range(&mut content, &t, open, n);
                        assert(tool_scan(t@, 0).content =~= content@) by {
                            assert(t@.subrange(cursor as int, n as int) =~= t@.subrange(
                                cursor as int,
                                open as int,
                            ) + t@.subrange(open as int, n as int));
                        }
                        assert(tool_scan(t@, 0).calls =~= specs);
                        return (content, calls);
                    },
                    Some(e) => {
                        let (a, b) = trim_bounds(&t, bs, e);
                        let body = string_of_range(&t, a, b);
                        let ghost here = match call_of(trim(t@.subrange(bs as int, e as int))) {
                            Some(c) => seq![c],
                            None => seq![],
                        };
                        let ghost old_specs = specs;
                        match call_from_body(body.as_str()) {
                            Some(c) => {
                                calls.push(c);
                            },
                            None => {},
                        }
                        let next = if close == Some(e) {
                            e + 12
                        } else {
                            e
                        };
                        proof {
                            specs = old_specs + here;
                            assert forall|i: int| 0 <= i < calls@.len() implies call_agrees(
                                #[trigger] calls@[i],
                                specs[i],
                            ) by {
                                if i < old_specs.len() {
                                    assert(specs[i] == old_specs[i]);
                                }
                            }
                            let ghost rest = tool_scan(t@, next as int);
                            assert(tool_scan(t@, 0).content =~= content@ + rest.content);
                            assert(tool_scan(t@, 0).calls =~= specs + rest.calls);
                        }
                        cursor = next;
                    },
                }
            },
        }
    }
}


/// `s` with every occurrence of `p` removed, scanning left to right (`str::replace` with
/// an empty replacement).
pub open spec fn remove_all(s: Seq<char>, p: Seq<char>) -> Seq<char>
    decreases s.len(),
{
    if p.len() == 0 {
        s
    } else {
        match find_from(s, p, 0) {
            Some(k) => if 0 <= k && k + p.len() <= s.len() {
                s.subrange(0, k) + remove_all(s.subrange(k + p.len(), s.len() as int), p)
            } else {
                s
            },
            None => s,
        }
    }
}

/// The characters of `v` with every occurrence of `p` removed.
fn remove_all_chars(v: &Vec<char>, p: &Vec<char>) -> (r: Vec<char>)
    ensures
        r@ == remove_all(v@, p@),
{
    let n = v.len();
    if p.len() == 0 {
        return crate::text::slice_chars(v, 0, n);
    }
    let mut out: Vec<char> = Vec::new();
    let mut cur: usize = 0;
    assert(v@.subrange(0, n as int) =~= v@);
    loop
        invariant
            n == v@.len(),
            p@.len() > 0,
            cur <= n,
            remove_all(v@, p@) == out@ + remove_all(v@.subrange(cur as int, n as int), p@),
        decreases n - cur,
    {
        let rest = crate::text::slice_chars(v, cur, n);
        proof {
            lemma_find_from(rest@, p@, 0);
        }
        match find_seq_from(&rest, p, 0) {
            None => {
                let ghost before = out@;
                let mut i: usize = 0;
                while i < rest.len()
                    invariant
                        i <= rest@.len(),
                        out@ == before + rest@.take(i as int),
                    decreases rest.len() - i,
                {
                    out.push(rest[i]);
                    i += 1;
                    assert(out@ =~= before + rest@.take(i as int));
                }
                assert(rest@.take(rest@.len() as int) =~= rest@);
                return out;
            },
            Some(k) => {
                let ghost before = out@;
                let mut i: usize = 0;
                while i < k
                    invariant
                        k + p@.len() <= rest@.len(),
                        i <= k,
                        out@ == before + rest@.take(i as int),
                    decreases k - i,
                {
                    out.push(rest[i]);
                    i += 1;
                    assert(out@ =~= before + rest@.take(i as int));
                }
                assert(rest@.subrange(0, k as int) =~= rest@.take(k as int));
                assert(rest@.subrange(k + p@.len(), rest@.len() as int) =~= v@.subrange(
                    cur + k + p@.len(),
                    n as int,
                ));
                cur = cur + k + p.len();
            },
        }
    }
}

/// The text with markdown code fences removed: every "```json", then every "```JSON",
/// then every remaining "```".
pub open spec fn fences_stripped(s: Seq<char>) -> Seq<char> {
    remove_all(remove_all(remove_all(s, "```json"@), "```JSON"@), "```"@)
}

/// Removes the markdown code fences a model may wrap its tool calls in.
pub fn strip_json_fences(s: &str) -> (r: String)
    ensures
        r@ == fences_stripped(s@),
{
    let v = chars_of(s);
    let a = remove_all_chars(&v, &chars_of("```json"));
    let b = remove_all_chars(&a, &chars_of("```JSON"));
    let c = remove_all_chars(&b, &chars_of("```"));
    string_of_range(&c, 0, c.len())
}

/// Whether `name` is one of `known`.
fn is_known(known: &Vec<String>, name: &str) -> (r: bool)
    ensures
        r == known@.map_values(|k: String| k@).contains(name@),
{
    let ghost kv = known@.map_values(|k: String| k@);
    let mut i: usize = 0;
    while i < known.len()
        invariant
            kv == known@.map_values(|k: String| k@),
            i <= known@.len(),
            forall|j: int| 0 <= j < i ==> kv[j] != name@,
        decreases known.len() - i,
    {
        if str_eq(known[i].as_str(), name) {
            assert(kv[i as int] == name@);
            return true;
        }
        i += 1;
    }
    false
}

/// The call a bare JSON object describes: it must name one of the `known` functions and
/// carry `arguments`.
pub open spec fn bare_call_of(blob: Seq<char>, known: Seq<Seq<char>>) -> Option<CallSpec> {
    if json_kind_of(blob) is None {
        None
    } else {
        let name = match json_get_str(blob, "name"@) {
            Some(n) => n,
            None => seq![],
        };
        if name.len() == 0 || !known.contains(name) || json_get(blob, "arguments"@) is None {
            None
        } else {
            Some(
                CallSpec {
                    id: json_get_str(blob, "id"@),
                    name,
                    arguments: arguments_text(json_get(blob, "arguments"@)),
                },
            )
        }
    }
}

/// The end of the JSON object that starts at `i`, when `t[i]` is `{` and the object
/// closes.
pub open spec fn object_at(t: Seq<char>, i: int) -> Option<int> {
    if 0 <= i < t.len() && t[i] == '{' {
        match object_end(char_roles(t.subrange(i, t.len() as int))) {
            Some(k) => if 0 < k && i + k <= t.len() {
                Some(i + k)
            } else {
                None
            },
            None => None,
        }
    } else {
        None
    }
}

/// The calls written as bare JSON objects in `t` from index `i` on: each object that
/// describes a known call is taken and the scan goes on after it; otherwise the scan
/// moves one character on.
pub open spec fn bare_calls_from(t: Seq<char>, i: int, known: Seq<Seq<char>>) -> Seq<CallSpec>
    decreases t.len() - i,
{
    if i < 0 || i >= t.len() {
        seq![]
    } else {
        match object_at(t, i) {
            Some(e) => match bare_call_of(t.subrange(i, e), known) {
                Some(c) => seq![c] + bare_calls_from(t, e, known),
                None => bare_calls_from(t, i + 1, known),
            },
            None => bare_calls_from(t, i + 1, known),
        }
    }
}

/// Finds tool calls the model wrote as bare JSON objects, without tags, naming one of
/// the `known` functions.
pub fn parse_bare_json_calls(text: &str, known: &Vec<String>) -> (r: Vec<ParsedToolCall>)
    ensures
        calls_agree(r@, bare_calls_from(text@, 0, known@.map_values(|k: String| k@))),
{
    let t = chars_of(text);
    let n = t.len();
    let ghost kv = known@.map_values(|k: String| k@);
    let mut calls: Vec<ParsedToolCall> = Vec::new();
    let ghost mut specs: Seq<CallSpec> = seq![];
    let mut i: usize = 0;
    while i < n
        invariant
            t@ == text@,
            n == t@.len(),
            kv == known@.map_values(|k: String| k@),
            i <= n,
            calls_agree(calls@, specs),
            bare_calls_from(t@, 0, kv) == specs + bare_calls_from(t@, i as int, kv),
        decreases n - i,
    {
        if t[i] == '{' {
            let found = object_end_in(&t, i);
            if let Some(e) = found {
                proof {
                    lemma_object_end_bounds(char_roles(t@.subrange(i as int, n as int)));
                }
                assert(object_at(t@, i as int) == Some(e as int));
                let blob = string_of_range(&t, i, e);
                if json_scalar(blob.as_str()).is_some() {
                    let name = call_name(blob.as_str());
                    if !name.as_str().is_empty() && is_known(known, name.as_str())
                        && get_member(blob.as_str(), "arguments").is_some() {
                        let arguments = call_arguments(blob.as_str());
                        let id = call_id(blob.as_str());
                        let ghost c = bare_call_of(blob@, kv).unwrap();
                        let ghost old_specs = specs;
                        calls.push(ParsedToolCall { id, name, arguments });
                        proof {
                            specs = old_specs + seq![c];
                            assert forall|j: int| 0 <= j < calls@.len() implies call_agrees(
                                #[trigger] calls@[j],
                                specs[j],
                            ) by {
                                if j < old_specs.len() {
                                    assert(specs[j] == old_specs[j]);
                                }
                            }
                            assert(bare_calls_from(t@, 0, kv) =~= specs + bare_calls_from(
                                t@,
                                e as int,
                                kv,
                            ));
                        }
                        i = e;
                        continue;
                    }
                }
            } else {
                assert(object_at(t@, i as int) is None);
            }
        }
        i += 1;
    }
    assert(bare_calls_from(t@, 0, kv) =~= specs);
    calls
}

/// The real name behind `name` when it is one of the aliases, else `name` itself.
pub open spec fn unaliased(name: Seq<char>, pairs: Seq<(Seq<char>, Seq<char>)>) -> Seq<char> {
    match member_value(pairs, name) {
        Some(r) => r,
        None => name,
    }
}

/// Gives each call whose name is an alias the real name back.
pub fn reverse_alias(calls: &mut Vec<ParsedToolCall>, alias: &Vec<(String, String)>)
    ensures
        final(calls)@.len() == old(calls)@.len(),
        forall|i: int|
            0 <= i < old(calls)@.len() ==> {
                &&& (#[trigger] final(calls)@[i]).id@ == old(calls)@[i].id@
                &&& final(calls)@[i].arguments@ == old(calls)@[i].arguments@
                &&& final(calls)@[i].name@ == unaliased(old(calls)@[i].name@, pair_views(alias@))
            },
{
    let ghost before = calls@;
    let mut i: usize = 0;
    while i < calls.len()
        invariant
            calls@.len() == before.len(),
            i <= calls@.len(),
            forall|j: int|
                0 <= j < i ==> {
                    &&& (#[trigger] calls@[j]).id@ == before[j].id@
                    &&& calls@[j].arguments@ == before[j].arguments@
                    &&& calls@[j].name@ == unaliased(before[j].name@, pair_views(alias@))
                },
            forall|j: int| i <= j < calls@.len() ==> #[trigger] calls@[j] == before[j],
        decreases calls.len() - i,
    {
        let found = get_pair_value(alias, calls[i].name.as_str());
        match found {
            Some(r) => {
                let c = ParsedToolCall {
                    id: calls[i].id.clone(),
                    name: r,
                    arguments: calls[i].arguments.clone(),
                };
                calls.set(i, c);
            },
            None => {},
        }
        i += 1;
    }
}

/// The second element of the first pair whose first element is `key`.
fn get_pair_value(pairs: &Vec<(String, String)>, key: &str) -> (r: Option<String>)
    ensures
        match r {
            Some(v) => member_value(pair_views(pairs@), key@) == Some(v@),
            None => member_value(pair_views(pairs@), key@) is None,
        },
{
    let ghost pv = pair_views(pairs@);
    assert(pv.subrange(0, pv.len() as int) =~= pv);
    let mut i: usize = 0;
    while i < pairs.len()
        invariant
            pv == pair_views(pairs@),
            i <= pairs@.len(),
            member_value(pv, key@) == member_value(pv.subrange(i as int, pv.len() as int), key@),
        decreases pairs.len() - i,
    {
        let ghost rest = pv.subrange(i as int, pv.len() as int);
        assert(rest[0] == pv[i as int]);
        if str_eq(pairs[i].0.as_str(), key) {
            return Some(pairs[i].1.clone());
        }
        assert(rest.drop_first() =~= pv.subrange(i + 1, pv.len() as int));
        i += 1;
    }
    None
}

/// The calls with each alias replaced by the real name behind it.
pub open spec fn renamed_calls(cs: Seq<CallSpec>, pairs: Seq<(Seq<char>, Seq<char>)>) -> Seq<
    CallSpec,
> {
    cs.map_values(
        |c: CallSpec| CallSpec { id: c.id, name: unaliased(c.name, pairs), arguments: c.arguments },
    )
}

/// The aliases of a list of alias pairs.
pub open spec fn alias_names(pairs: Seq<(Seq<char>, Seq<char>)>) -> Seq<Seq<char>> {
    pairs.map_values(|p: (Seq<char>, Seq<char>)| p.0)
}

/// What a finished reply amounts to: its text and the tool calls in it. Without tools the
/// text is the reply as it came. With tools, fences are stripped and tagged calls taken;
/// when there are none, bare JSON calls to known aliases are taken instead and then the
/// text is dropped. Aliases in the calls are given their real names back.
pub open spec fn reply_of(text: Seq<char>, tools_enabled: bool, pairs: Seq<(Seq<char>, Seq<char>)>) -> (
    Seq<char>,
    Seq<CallSpec>,
) {
    if !tools_enabled {
        (text, seq![])
    } else {
        let cleaned = fences_stripped(text);
        let tagged = tool_calls_in(cleaned);
        if tagged.1.len() > 0 {
            (tagged.0, renamed_calls(tagged.1, pairs))
        } else {
            let bare = bare_calls_from(cleaned, 0, alias_names(pairs));
            if bare.len() > 0 {
                (seq![], renamed_calls(bare, pairs))
            } else {
                (tagged.0, seq![])
            }
        }
    }
}

/// The aliases, as strings.
fn alias_keys(alias: &Vec<(String, String)>) -> (r: Vec<String>)
    ensures
        r@.map_values(|k: String| k@) == alias_names(pair_views(alias@)),
{
    let mut r: Vec<String> = Vec::new();
    let mut i: usize = 0;
    while i < alias.len()
        invariant
            i <= alias@.len(),
            r@.map_values(|k: String| k@) == alias_names(pair_views(alias@)).take(i as int),
        decreases alias.len() - i,
    {
        let k = alias[i].0.clone();
        assert(k@ == pair_views(alias@)[i as int].0);
        let ghost before = r@;
        r.push(k);
        assert(r@.map_values(|k: String| k@) =~= before.map_values(|k: String| k@).push(k@));
        i += 1;
        assert(r@.map_values(|k: String| k@) =~= alias_names(pair_views(alias@)).take(i as int));
    }
    assert(alias_names(pair_views(alias@)).take(alias@.len() as int) =~= alias_names(
        pair_views(alias@),
    ));
    r
}

/// Splits a finished reply into its text and its tool calls (see [`reply_of`]).
pub fn extract_tool_calls(text: String, tools_enabled: bool, alias: &Vec<(String, String)>) -> (r: (
    String,
    Vec<ParsedToolCall>,
))
    ensures
        r.0@ == reply_of(text@, tools_enabled, pair_views(alias@)).0,
        calls_agree(r.1@, reply_of(text@, tools_enabled, pair_views(alias@)).1),
{
    if !tools_enabled {
        return (text, Vec::new());
    }
    let ghost pv = pair_views(alias@);
    let cleaned = strip_json_fences(text.as_str());
    let (mut content, mut calls) = parse_tool_calls(cleaned.as_str());
    let ghost specs = if calls@.len() > 0 {
        tool_calls_in(cleaned@).1
    } else {
        bare_calls_from(cleaned@, 0, alias_names(pv))
    };
    if calls.len() == 0 {
        let known = alias_keys(alias);
        calls = parse_bare_json_calls(cleaned.as_str(), &known);
        if calls.len() != 0 {
            content = String::new();
        }
    }
    assert(calls_agree(calls@, specs));
    let ghost before = calls@;
    reverse_alias(&mut calls, alias);
    assert forall|i: int| 0 <= i < calls@.len() implies call_agrees(
        #[trigger] calls@[i],
        renamed_calls(specs, pv)[i],
    ) by {
        assert(call_agrees(before[i], specs[i]));
    }
    (content, calls)
}

/// What is sent of a streamed buffer never contains an opening tool tag: the flush point
/// stops before the first one.
pub proof fn law_flush_never_sends_a_tag(s: Seq<char>)
    ensures
        0 <= flush_point(s) <= s.len(),
        forall|j: int| !occurs_at(#[trigger] s.take(flush_point(s)), tool_open(), j),
{
    lemma_find_from(s, tool_open(), 0);
    let lo = if s.len() >= 10 {
        s.len() - 10
    } else {
        0
    };
    lemma_first_partial_open_bounds(s, lo);
    let k = flush_point(s);
    let pre = s.take(k);
    assert forall|j: int| !occurs_at(#[trigger] s.take(flush_point(s)), tool_open(), j) by {
        if occurs_at(pre, tool_open(), j) {
            assert(s.subrange(j, j + 11) =~= pre.subrange(j, j + 11));
            assert(s.subrange(j, j + tool_open().len()) == tool_open());
        }
    }
}

/// A partial tag found lies within the text, at or after where the search started.
pub proof fn lemma_first_partial_open_bounds(s: Seq<char>, i: int)
    requires
        0 <= i,
    ensures
        first_partial_open(s, i) matches Some(k) ==> i <= k < s.len(),
    decreases s.len() + 1 - i,
{
    if i < s.len() && !partial_open_at(s, i) {
        lemma_first_partial_open_bounds(s, i + 1);
    }
}

/// Text in which no opening tag occurs holds no tool call: it comes back trimmed.
pub proof fn law_no_tags_no_calls(t: Seq<char>)
    requires
        forall|j: int| !occurs_at(t, tool_open(), j),
    ensures
        tool_calls_in(t) == (trim(t), Seq::<CallSpec>::empty()),
{
    lemma_find_from(t, tool_open(), 0);
    if let Some(k) = find_from(t, tool_open(), 0) {
        assert(occurs_at(t, tool_open(), k));
    }
    assert(t.subrange(0, t.len() as int) =~= t);
}

/// Offering tools under aliases loses nothing: a call to the alias under which a tool's
/// name is offered comes back under that name.
pub proof fn law_alias_round_trip(tools: Seq<ToolDef>, i: int)
    requires
        0 <= i < tools.len(),
    ensures
        unaliased(alias_of(alias_pairs(tools), tools[i].function.name@), alias_pairs(tools))
            == tools[i].function.name@,
{
    let name = tools[i].function.name@;
    let pairs = alias_pairs(tools);
    assert(pairs.skip(0) =~= pairs);
    lemma_alias_of_found(tools, name, i, 0);
    let j = choose|j: int|
        0 <= j <= i && alias_of(pairs.skip(0), name) == alias_name(j as nat)
            && #[trigger] tools[j].function.name@ == name;
    lemma_alias_lookup(tools, j, 0);
}

/// True when a tool tag could start at index `j` of `s`: what follows `j` agrees with the
/// opening tag as far as both go (so more text could complete it, or it is complete).
pub open spec fn may_start_tag(s: Seq<char>, j: int) -> bool {
    0 <= j <= s.len() && {
        let n = if s.len() - j < 11 {
            s.len() - j
        } else {
            11
        };
        s.subrange(j, j + n) == tool_open().take(n)
    }
}

/// No partial tag starts between `i` and the first one found.
pub proof fn lemma_first_partial_open_min(s: Seq<char>, i: int, j: int)
    requires
        0 <= i <= j < s.len(),
        match first_partial_open(s, i) {
            Some(k) => j < k,
            None => true,
        },
    ensures
        !partial_open_at(s, j),
    decreases j - i,
{
    if i < j {
        lemma_first_partial_open_min(s, i + 1, j);
    }
}

/// Nothing before the flush point can start a tool tag, whatever text follows: what is
/// sent of a streamed buffer never holds a tag or the beginning of one.
pub proof fn law_flush_point_is_safe(s: Seq<char>)
    ensures
        0 <= flush_point(s) <= s.len(),
        forall|j: int| 0 <= j < flush_point(s) ==> !#[trigger] may_start_tag(s, j),
{
    law_flush_never_sends_a_tag(s);
    lemma_find_from(s, tool_open(), 0);
    let lo = if s.len() >= 10 {
        s.len() - 10
    } else {
        0
    };
    lemma_first_partial_open_bounds(s, lo);
    assert forall|j: int| 0 <= j < flush_point(s) implies !#[trigger] may_start_tag(s, j) by {
        if may_start_tag(s, j) {
            if s.len() - j >= 11 {
                assert(tool_open().take(11) =~= tool_open());
                assert(s.subrange(j, j + tool_open().len()) == tool_open());
            } else {
                let n = s.len() - j;
                assert(s.subrange(j, s.len() as int) == tool_open().take(n));
                assert(tool_open().subrange(0, n) =~= tool_open().take(n));
                assert(partial_open_at(s, j));
                lemma_first_partial_open_min(s, lo, j);
            }
        }
    }
}

/// A tag that could start at `j` of a longer text could start there in any shorter text
/// that reaches `j`.
pub proof fn lemma_may_start_tag_prefix(a: Seq<char>, b: Seq<char>, j: int)
    requires
        0 <= j <= a.len(),
        may_start_tag(a + b, j),
    ensures
        may_start_tag(a, j),
{
    let n = if (a + b).len() - j < 11 {
        (a + b).len() - j
    } else {
        11
    };
    let m = if a.len() - j < 11 {
        a.len() - j
    } else {
        11
    };
    assert(a.subrange(j, j + m) =~= (a + b).subrange(j, j + n).take(m));
    assert(tool_open().take(m) =~= tool_open().take(n).take(m));
}

/// Whether a tag could start at a position of `a + b` beyond `a` depends on `b` alone.
pub proof fn lemma_may_start_tag_shift(a: Seq<char>, b: Seq<char>, j: int)
    requires
        0 <= j <= b.len(),
    ensures
        may_start_tag(a + b, a.len() + j) == may_start_tag(b, j),
{
    let n = if b.len() - j < 11 {
        b.len() - j
    } else {
        11
    };
    assert((a + b).subrange(a.len() + j, a.len() + j + n) =~= b.subrange(j, j + n));
}

/// True when the call `c` is the one the JSON text `body` describes: the body is JSON and
/// gives a non-empty string `name`, which is the call's name; the call's id is the
/// body's string `id` (none when it gives none); its arguments are the body's (see
/// [`arguments_text`]).
pub open spec fn described_by(c: CallSpec, body: Seq<char>) -> bool {
    &&& json_kind_of(body) is Some
    &&& c.name.len() > 0
    &&& json_get_str(body, "name"@) == Some(c.name)
    &&& c.id == json_get_str(body, "id"@)
    &&& c.arguments == arguments_text(json_get(body, "arguments"@))
}

/// True when some call body describes `c`.
pub open spec fn has_body(c: CallSpec) -> bool {
    exists|body: Seq<char>| #[trigger] described_by(c, body)
}

/// The calls the scan from `cur` on finds each come from a call body.
proof fn lemma_scan_calls_have_bodies(t: Seq<char>, cur: int)
    requires
        0 <= cur <= t.len(),
    ensures
        forall|i: int|
            0 <= i < tool_scan(t, cur).calls.len() ==> #[trigger] has_body(
                tool_scan(t, cur).calls[i],
            ),
    decreases t.len() + 1 - cur,
{
    lemma_body_end_bounds(t, cur);
    if let Some(open) = find_from(t, tool_open(), cur) {
        let bs = open + 11;
        if let Some(e) = body_end(t, bs) {
            let next = if find_from(t, tool_close(), bs) == Some(e) {
                e + 12
            } else {
                e
            };
            lemma_scan_calls_have_bodies(t, next);
            let body = trim(t.subrange(bs, e));
            let here = match call_of(body) {
                Some(c) => seq![c],
                None => Seq::<CallSpec>::empty(),
            };
            let rest = tool_scan(t, next);
            let calls = tool_scan(t, cur).calls;
            assert(calls == here + rest.calls);
            assert forall|i: int| 0 <= i < calls.len() implies #[trigger] has_body(calls[i]) by {
                if i < here.len() {
                    assert(described_by(calls[i], body));
                } else {
                    assert(calls[i] == rest.calls[i - here.len()]);
                }
            }
        }
    }
}

/// Every tool call found in model output names a function and comes from its call body:
/// a non-empty name, the body's id when it gives one, and the body's arguments.
pub proof fn law_tool_calls_come_from_bodies(t: Seq<char>)
    ensures
        forall|i: int| 0 <= i < tool_calls_in(t).1.len() ==> #[trigger] has_body(tool_calls_in(t).1[i]),
{
    lemma_scan_calls_have_bodies(t, 0);
}

/// Every bare JSON call found names one of the known functions and comes from the JSON
/// object it was read from, which carries `arguments`.
pub proof fn law_bare_calls_come_from_bodies(t: Seq<char>, i: int, known: Seq<Seq<char>>)
    ensures
        forall|k: int|
            0 <= k < bare_calls_from(t, i, known).len() ==> #[trigger] has_body(
                bare_calls_from(t, i, known)[k],
            ) && known.contains(bare_calls_from(t, i, known)[k].name),
    decreases t.len() - i,
{
    if 0 <= i < t.len() {
        law_bare_calls_come_from_bodies(t, i + 1, known);
        if let Some(e) = object_at(t, i) {
            let blob = t.subrange(i, e);
            if let Some(c) = bare_call_of(blob, known) {
                law_bare_calls_come_from_bodies(t, e, known);
                let all = bare_calls_from(t, i, known);
                let rest = bare_calls_from(t, e, known);
                assert(all == seq![c] + rest);
                assert forall|k: int| 0 <= k < all.len() implies #[trigger] has_body(all[k])
                    && known.contains(all[k].name) by {
                    if k == 0 {
                        assert(described_by(c, blob));
                    } else {
                        assert(all[k] == rest[k - 1]);
                    }
                }
            }
        }
    }
}

/// With tools on, the text the model wrote beside its tagged calls is kept: when the
/// fence-stripped reply holds at least one tagged call, the answer's text is the trimmed
/// text outside the calls and its calls are those calls under their real names. The text
/// is dropped only when there is no tagged call and bare JSON calls to offered aliases are
/// taken instead. Without tools the reply is answered as it came, with no call.
pub proof fn law_text_beside_tagged_calls_is_kept(
    text: Seq<char>,
    pairs: Seq<(Seq<char>, Seq<char>)>,
)
    ensures
        tool_calls_in(fences_stripped(text)).1.len() > 0 ==> reply_of(text, true, pairs) == (
            tool_calls_in(fences_stripped(text)).0,
            renamed_calls(tool_calls_in(fences_stripped(text)).1, pairs),
        ),
        reply_of(text, true, pairs).0 != tool_calls_in(fences_stripped(text)).0 ==> {
            &&& tool_calls_in(fences_stripped(text)).1.len() == 0
            &&& bare_calls_from(fences_stripped(text), 0, alias_names(pairs)).len() > 0
            &&& reply_of(text, true, pairs).0.len() == 0
        },
        reply_of(text, true, pairs).1.len() == 0 ==> reply_of(text, true, pairs).0
            == tool_calls_in(fences_stripped(text)).0,
        tool_calls_in(fences_stripped(text)).1.len() == 0 && bare_calls_from(
            fences_stripped(text),
            0,
            alias_names(pairs),
        ).len() > 0 ==> reply_of(text, true, pairs) == (
            Seq::<char>::empty(),
            renamed_calls(bare_calls_from(fences_stripped(text), 0, alias_names(pairs)), pairs),
        ),
        reply_of(text, false, pairs) == (text, Seq::<CallSpec>::empty()),
{
}

/// Calls come back under the real names of the tools, in order, each keeping its id and
/// its arguments: the call to an alias gets the name behind it, any other name is kept.
pub proof fn law_calls_are_renamed_one_by_one(cs: Seq<CallSpec>, pairs: Seq<(Seq<char>, Seq<char>)>)
    ensures
        renamed_calls(cs, pairs).len() == cs.len(),
        forall|i: int|
            0 <= i < cs.len() ==> {
                &&& (#[trigger] renamed_calls(cs, pairs)[i]).id == cs[i].id
                &&& renamed_calls(cs, pairs)[i].arguments == cs[i].arguments
                &&& (member_value(pairs, cs[i].name) matches Some(name)
                    ==> renamed_calls(cs, pairs)[i].name == name)
                &&& (member_value(pairs, cs[i].name) is None ==> renamed_calls(cs, pairs)[i].name
                    == cs[i].name)
            },
{
}

/// The first occurrence of a pattern that starts with a backtick is at `k` when it occurs
/// there and no backtick comes before.
proof fn lemma_fence_found_at(t: Seq<char>, p: Seq<char>, k: int)
    requires
        p.len() > 0,
        p[0] == '`',
        0 <= k,
        k + p.len() <= t.len(),
        t.subrange(k, k + p.len()) == p,
        forall|j: int| 0 <= j < k ==> t[j] != '`',
    ensures
        find_from(t, p, 0) == Some(k),
{
    lemma_find_from(t, p, 0);
    assert(t.subrange(k, k + p.len())[0] == t[k]);
    if let Some(m) = find_from(t, p, 0) {
        if m < k {
            assert(t.subrange(m, m + p.len())[0] == t[m]);
        }
    }
}

/// Removing a pattern that does not occur leaves the text as it is.
proof fn lemma_remove_absent(t: Seq<char>, p: Seq<char>)
    requires
        p.len() > 0,
        forall|j: int| 0 <= j && j + p.len() <= t.len() ==> #[trigger] t.subrange(j, j + p.len()) != p,
    ensures
        remove_all(t, p) == t,
{
    lemma_find_from(t, p, 0);
}

/// Removing the fence pattern `p` from `p + rest`, when `p` does not occur in `rest`,
/// leaves `rest`.
proof fn lemma_remove_leading(p: Seq<char>, rest: Seq<char>)
    requires
        p.len() > 0,
        p[0] == '`',
        forall|j: int| 0 <= j && j + p.len() <= rest.len() ==> #[trigger] rest.subrange(j, j + p.len()) != p,
    ensures
        remove_all(p + rest, p) == rest,
{
    let t = p + rest;
    assert(t.subrange(0, p.len() as int) =~= p);
    lemma_fence_found_at(t, p, 0);
    assert(t.subrange(p.len() as int, t.len() as int) =~= rest);
    lemma_remove_absent(rest, p);
    assert(t.subrange(0, 0) + rest =~= rest);
}

/// Text without backticks is left as it is by fence stripping, and a reply wrapped in a
/// fence that opens with three backticks and `json` or `JSON` (or only the backticks,
/// when the text does not itself begin with `json` or `JSON`) and closes with three
/// backticks comes back without the fence.
pub proof fn law_fences_are_stripped(s: Seq<char>)
    requires
        forall|i: int| 0 <= i < s.len() ==> s[i] != '`',
    ensures
        fences_stripped(s) == s,
        fences_stripped("```json"@ + s + "```"@) == s,
        fences_stripped("```JSON"@ + s + "```"@) == s,
        s.len() == 0 || (s[0] != 'j' && s[0] != 'J') ==> fences_stripped("```"@ + s + "```"@)
            == s,
{
    reveal_strlit("```json");
    reveal_strlit("```JSON");
    reveal_strlit("```");
    let lo = "```json"@;
    let up = "```JSON"@;
    let f = "```"@;
    // No pattern occurs in `s`: each starts with a backtick.
    assert forall|p: Seq<char>, j: int|
        p.len() > 0 && p[0] == '`' && 0 <= j && j + p.len() <= s.len() implies #[trigger] s.subrange(
        j,
        j + p.len(),
    ) != p by {
        assert(s.subrange(j, j + p.len())[0] == s[j]);
    }
    lemma_remove_absent(s, lo);
    lemma_remove_absent(s, up);
    lemma_remove_absent(s, f);
    // In `s + f` only the closing fence holds backticks.
    let sf = s + f;
    assert forall|j: int| 0 <= j && j + 7 <= sf.len() implies #[trigger] sf.subrange(j, j + 7)
        != lo && sf.subrange(j, j + 7) != up by {
        assert(sf.subrange(j, j + 7)[0] == sf[j]);
        assert(sf[j] == s[j]);
    }
    lemma_remove_absent(sf, lo);
    lemma_remove_absent(sf, up);
    assert(sf.subrange(s.len() as int, s.len() as int + 3) =~= f);
    assert forall|j: int| 0 <= j < s.len() implies sf[j] != '`' by {
        assert(sf[j] == s[j]);
    }
    lemma_fence_found_at(sf, f, s.len() as int);
    lemma_remove_absent(Seq::<char>::empty(), f);
    assert(sf.subrange(0, s.len() as int) =~= s);
    assert(sf.subrange(s.len() as int + 3, sf.len() as int) =~= Seq::<char>::empty());
    assert(remove_all(sf, f) =~= s);
    // ```json s ```
    assert forall|j: int| 0 <= j && j + 7 <= sf.len() implies #[trigger] sf.subrange(j, j + 7)
        != lo by {
        assert(sf.subrange(j, j + 7)[0] == sf[j]);
        assert(sf[j] == s[j]);
    }
    lemma_remove_leading(lo, sf);
    assert(lo + s + f =~= lo + sf);
    // ```JSON s ```: the lowercase fence does not occur.
    let b = up + sf;
    assert forall|j: int| 0 <= j && j + 7 <= b.len() implies #[trigger] b.subrange(j, j + 7) != lo by {
        let w = b.subrange(j, j + 7);
        if j == 0 {
            assert(w[3] == 'J');
        } else if j == 1 {
            assert(w[2] == b[3]);
        } else if j == 2 {
            assert(w[1] == b[3]);
        } else {
            assert(w[0] == b[j]);
            if j < 7 {
                assert(b[j] == up[j]);
            } else {
                assert(b[j] == s[j - 7]);
            }
        }
    }
    lemma_remove_absent(b, lo);
    assert forall|j: int| 0 <= j && j + 7 <= sf.len() implies #[trigger] sf.subrange(j, j + 7)
        != up by {
        assert(sf.subrange(j, j + 7)[0] == sf[j]);
        assert(sf[j] == s[j]);
    }
    lemma_remove_leading(up, sf);
    assert(up + s + f =~= b);
    // ``` s ```
    if s.len() == 0 || (s[0] != 'j' && s[0] != 'J') {
        let c = f + sf;
        assert forall|j: int| 0 <= j && j + 7 <= c.len() implies #[trigger] c.subrange(j, j + 7)
            != lo && c.subrange(j, j + 7) != up by {
            let w = c.subrange(j, j + 7);
            if j == 0 {
                assert(w[3] == c[3]);
                assert(c[3] == s[0]);
            } else if j == 1 {
                assert(w[2] == c[3]);
            } else if j == 2 {
                assert(w[1] == c[3]);
            } else {
                assert(w[0] == c[j]);
                assert(c[j] == s[j - 3]);
            }
        }
        lemma_remove_absent(c, lo);
        lemma_remove_absent(c, up);
        assert(c.subrange(0, 3) =~= f);
        lemma_fence_found_at(c, f, 0);
        assert(c.subrange(3, c.len() as int) =~= sf);
        assert(c.subrange(0, 0) + remove_all(sf, f) =~= s);
        assert(f + s + f =~= c);
    }
}

} // verus!
