//! Reading JSON text through `serde_json`: the kind of a document, the members of an
//! object or the items of an array as JSON text of their own, and how text is written
//! as JSON.
use vstd::prelude::*;
use crate::text::opt_view;
use serde_json::Value;

verus! {

/// What a JSON document is at its top level, as the logic reads it.
pub ghost enum JsonKind {
    Null,
    Bool(bool),
    Number(Seq<char>),
    Str(Seq<char>),
    Array,
    Object,
}

/// The top level of a JSON document: scalars with their value (a number by its text, a
/// string unescaped), containers by their kind alone.
#[derive(Debug, Clone, PartialEq, Eq)]
pub enum JsonScalar {
    Null,
    Bool(bool),
    Number(String),
    Str(String),
    Array,
    Object,
}

impl View for JsonScalar {
    type V = JsonKind;

    open spec fn view(&self) -> JsonKind {
        match self {
            JsonScalar::Null => JsonKind::Null,
            JsonScalar::Bool(b) => JsonKind::Bool(*b),
            JsonScalar::Number(n) => JsonKind::Number(n@),
            JsonScalar::Str(s) => JsonKind::Str(s@),
            JsonScalar::Array => JsonKind::Array,
            JsonScalar::Object => JsonKind::Object,
        }
    }
}

/// What the logic reads of a JSON document: its top level, its members (for an object,
/// each value written back as compact JSON, in the order of its map) and its items (for
/// an array, each written back as compact JSON).
pub ghost struct JsonDoc {
    pub kind: JsonKind,
    pub members: Seq<(Seq<char>, Seq<char>)>,
    pub items: Seq<Seq<char>>,
}

/// A JSON document as plain values (see [`JsonDoc`]).
pub struct JsonRead {
    pub kind: JsonScalar,
    pub members: Vec<(String, String)>,
    pub items: Vec<String>,
}

impl View for JsonRead {
    type V = JsonDoc;

    open spec fn view(&self) -> JsonDoc {
        JsonDoc {
            kind: self.kind@,
            members: members_view(self.members@),
            items: self.items@.map_values(|s: String| s@),
        }
    }
}

/// `text` read by `serde_json`, or `None` when it is not JSON.
pub uninterp spec fn json_doc_of(text: Seq<char>) -> Option<JsonDoc>;

/// The view of an optional document.
pub open spec fn read_view(r: Option<JsonRead>) -> Option<JsonDoc> {
    match r {
        Some(d) => Some(d@),
        None => None,
    }
}

/// `serde_json::from_str::<Value>`: the document read, converted to plain values (numbers,
/// members and items by `Value`'s `Display`); `None` when `text` is not JSON.
#[verifier::external_body]
pub(crate) fn read_json(text: &str) -> (r: Option<JsonRead>)
    ensures
        read_view(r) == json_doc_of(text@),
{
    let v: Value = serde_json::from_str(text).ok()?;
    let kind = match &v {
        Value::Null => JsonScalar::Null,
        Value::Bool(b) => JsonScalar::Bool(*b),
        Value::Number(n) => JsonScalar::Number(n.to_string()),
        Value::String(s) => JsonScalar::Str(s.clone()),
        Value::Array(_) => JsonScalar::Array,
        Value::Object(_) => JsonScalar::Object,
    };
    let members = v.as_object().into_iter().flatten().map(|(k, x)| (k.clone(), x.to_string()));
    let items = v.as_array().into_iter().flatten().map(ToString::to_string);
    Some(JsonRead { kind, members: members.collect(), items: items.collect() })
}

/// The top level of `text` read as JSON, or `None` when it is not JSON.
pub open spec fn json_kind_of(text: Seq<char>) -> Option<JsonKind> {
    match json_doc_of(text) {
        Some(d) => Some(d.kind),
        None => None,
    }
}

/// The members of `text` read as a JSON object (empty when it is not JSON).
pub open spec fn json_members_of(text: Seq<char>) -> Seq<(Seq<char>, Seq<char>)> {
    match json_doc_of(text) {
        Some(d) => d.members,
        None => seq![],
    }
}

/// The items of `text` read as a JSON array (empty when it is not JSON).
pub open spec fn json_items_of(text: Seq<char>) -> Seq<Seq<char>> {
    match json_doc_of(text) {
        Some(d) => d.items,
        None => seq![],
    }
}

/// `text` read as JSON and written back pretty-printed by `serde_json` (two spaces per
/// level); `None` when it is not JSON.
pub uninterp spec fn json_pretty_of(text: Seq<char>) -> Option<Seq<char>>;

/// The view of an optional top level.
pub open spec fn kind_view(r: Option<JsonScalar>) -> Option<JsonKind> {
    match r {
        Some(s) => Some(s@),
        None => None,
    }
}

/// The top level of `text` read as JSON.
pub(crate) fn json_scalar(text: &str) -> (r: Option<JsonScalar>)
    ensures
        kind_view(r) == json_kind_of(text@),
{
    match read_json(text) {
        Some(d) => Some(d.kind),
        None => None,
    }
}

/// The views of a list of members.
pub open spec fn members_view(v: Seq<(String, String)>) -> Seq<(Seq<char>, Seq<char>)> {
    v.map_values(|m: (String, String)| (m.0@, m.1@))
}

/// The members of `text` read as a JSON object.
pub(crate) fn json_members(text: &str) -> (r: Vec<(String, String)>)
    ensures
        members_view(r@) == json_members_of(text@),
{
    match read_json(text) {
        Some(d) => d.members,
        None => {
            let r: Vec<(String, String)> = Vec::new();
            assert(members_view(r@) =~= seq![]);
            r
        },
    }
}

/// The items of `text` read as a JSON array.
pub(crate) fn json_items(text: &str) -> (r: Vec<String>)
    ensures
        r@.map_values(|s: String| s@) == json_items_of(text@),
{
    match read_json(text) {
        Some(d) => d.items,
        None => {
            let r: Vec<String> = Vec::new();
            assert(r@.map_values(|s: String| s@) =~= seq![]);
            r
        },
    }
}

/// `serde_json::to_string_pretty` of `text` read as a `Value`: the document written back
/// with two spaces per level; `None` when `text` is not JSON.
#[verifier::external_body]
pub(crate) fn pretty_json(text: &str) -> (r: Option<String>)
    ensures
        opt_view(r) == json_pretty_of(text@),
{
    let v: Value = serde_json::from_str(text).ok()?;
    serde_json::to_string_pretty(&v).ok()
}

/// The value of the first member named `key` among `ms`.
pub open spec fn member_value(ms: Seq<(Seq<char>, Seq<char>)>, key: Seq<char>) -> Option<
    Seq<char>,
>
    decreases ms.len(),
{
    if ms.len() == 0 {
        None
    } else if ms[0].0 == key {
        Some(ms[0].1)
    } else {
        member_value(ms.drop_first(), key)
    }
}

/// The member of the JSON object `text` named `key`, as compact JSON (`Value::get`).
pub open spec fn json_get(text: Seq<char>, key: Seq<char>) -> Option<Seq<char>> {
    member_value(json_members_of(text), key)
}

/// The string value of the member `key` of the JSON object `text`, if it is a string
/// (`Value::get` then `Value::as_str`).
pub open spec fn json_get_str(text: Seq<char>, key: Seq<char>) -> Option<Seq<char>> {
    match json_get(text, key) {
        Some(m) => match json_kind_of(m) {
            Some(JsonKind::Str(s)) => Some(s),
            _ => None,
        },
        None => None,
    }
}

/// The member of the JSON object `text` named `key`, as compact JSON.
pub fn get_member(text: &str, key: &str) -> (r: Option<String>)
    ensures
        match r {
            Some(m) => json_get(text@, key@) == Some(m@),
            None => json_get(text@, key@) is None,
        },
{
    let ms = json_members(text);
    let ghost mv = members_view(ms@);
    assert(mv.subrange(0, mv.len() as int) =~= mv);
    let mut i: usize = 0;
    while i < ms.len()
        invariant
            mv == members_view(ms@),
            mv == json_members_of(text@),
            i <= ms@.len(),
            member_value(mv, key@) == member_value(mv.subrange(i as int, mv.len() as int), key@),
        decreases ms.len() - i,
    {
        let ghost rest = mv.subrange(i as int, mv.len() as int);
        assert(rest[0] == (ms@[i as int].0@, ms@[i as int].1@));
        if crate::text::str_eq(ms[i].0.as_str(), key) {
            return Some(ms[i].1.clone());
        }
        assert(rest.drop_first() =~= mv.subrange(i + 1, mv.len() as int));
        i += 1;
    }
    None
}

/// The string value of the member `key` of the JSON object `text`, if it is a string.
pub fn get_str_member(text: &str, key: &str) -> (r: Option<String>)
    ensures
        match r {
            Some(s) => json_get_str(text@, key@) == Some(s@),
            None => json_get_str(text@, key@) is None,
        },
{
    match get_member(text, key) {
        Some(m) => match json_scalar(m.as_str()) {
            Some(JsonScalar::Str(s)) => Some(s),
            _ => None,
        },
        None => None,
    }
}

/// The lowercase hexadecimal digit of `d` (below 16).
pub open spec fn lower_hex_digit(d: u32) -> char {
    seq!['0', '1', '2', '3', '4', '5', '6', '7', '8', '9', 'a', 'b', 'c', 'd', 'e', 'f'][d as int]
}

/// How one character is written inside a JSON string by `serde_json`: `"` and `\` and the
/// control characters with a short escape (`\b \t \n \f \r`) get it, the other control
/// characters are written `\u00XX` in lowercase hexadecimal, and every other character is
/// written as it is.
pub open spec fn json_char_escape(c: char) -> Seq<char> {
    if c == '"' {
        seq!['\\', '"']
    } else if c == '\\' {
        seq!['\\', '\\']
    } else if c == '\u{8}' {
        seq!['\\', 'b']
    } else if c == '\t' {
        seq!['\\', 't']
    } else if c == '\n' {
        seq!['\\', 'n']
    } else if c == '\u{c}' {
        seq!['\\', 'f']
    } else if c == '\r' {
        seq!['\\', 'r']
    } else if (c as u32) < 32 {
        seq!['\\', 'u', '0', '0', lower_hex_digit((c as u32) / 16), lower_hex_digit((c as u32) % 16)]
    } else {
        seq![c]
    }
}

/// The characters of `s`, each escaped as in a JSON string.
pub open spec fn json_escaped(s: Seq<char>) -> Seq<char>
    decreases s.len(),
{
    if s.len() == 0 {
        seq![]
    } else {
        json_escaped(s.drop_last()) + json_char_escape(s.last())
    }
}

/// The JSON text `serde_json` writes for the string `s`: quoted, with its escapes.
pub open spec fn json_string_literal(s: Seq<char>) -> Seq<char> {
    seq!['"'] + json_escaped(s) + seq!['"']
}

/// `serde_json::to_string` of a string: the quoted JSON string literal, with the escapes
/// of its `ESCAPE` table (`format_escaped_str`); writing a string into memory does not fail.
#[verifier::external_body]
pub(crate) fn quote_json(s: &str) -> (r: String)
    ensures
        r@ == json_string_literal(s@),
{
    serde_json::to_string(s).unwrap_or_default()
}

} // verus!
