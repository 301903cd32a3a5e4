//! JSON at the edge of the gateway.
//!
//! The gateway reads only the top level of a frame: an object whose members
//! are strings, booleans, or payloads that it carries without looking inside.
//! Parsing and string escaping are done by `serde_json`; the functions that
//! call it are marked below and their contracts are taken on trust.

use vstd::prelude::*;
use vstd::string::*;

verus! {

/// One member of a frame, as far as the gateway reads it.
#[derive(Debug)]
pub enum JsonField {
    /// JSON `null`.
    Null,
    /// JSON `true` or `false`.
    Flag(bool),
    /// A JSON string, unescaped.
    Text(String),
    /// A number, array or object, kept as its compact JSON text.
    Raw(String),
}

/// The mathematical value of a [`JsonField`].
pub enum JsonFieldView {
    Null,
    Flag(bool),
    Text(Seq<char>),
    Raw(Seq<char>),
}

impl View for JsonField {
    type V = JsonFieldView;

    open spec fn view(&self) -> JsonFieldView {
        match self {
            JsonField::Null => JsonFieldView::Null,
            JsonField::Flag(b) => JsonFieldView::Flag(*b),
            JsonField::Text(s) => JsonFieldView::Text(s@),
            JsonField::Raw(s) => JsonFieldView::Raw(s@),
        }
    }
}

/// A key of a JSON object with the member stored under it.
#[derive(Debug)]
pub struct JsonMember {
    pub key: String,
    pub value: JsonField,
}

/// The mathematical value of a [`JsonMember`].
pub struct JsonMemberView {
    pub key: Seq<char>,
    pub value: JsonFieldView,
}

impl View for JsonMember {
    type V = JsonMemberView;

    open spec fn view(&self) -> JsonMemberView {
        JsonMemberView { key: self.key@, value: self.value@ }
    }
}

/// The members of a vector, each by its view.
pub open spec fn members_view(members: Seq<JsonMember>) -> Seq<JsonMemberView> {
    members.map_values(|m: JsonMember| m@)
}

/// The members of the JSON object that `text` holds, in the order in which
/// `serde_json` keeps them, or `None` where `text` is not one JSON object.
pub uninterp spec fn json_object_members(text: Seq<char>) -> Option<Seq<JsonMemberView>>;

/// The lower-case hexadecimal digit for `d`.
pub open spec fn hex_digit(d: int) -> char {
    if d < 10 {
        crate::text::digit_char(d)
    } else if d == 10 {
        'a'
    } else if d == 11 {
        'b'
    } else if d == 12 {
        'c'
    } else if d == 13 {
        'd'
    } else if d == 14 {
        'e'
    } else {
        'f'
    }
}

/// How one character stands inside a JSON string: quote, backslash and the
/// control characters below U+0020 are escaped, everything else stands as it is.
pub open spec fn escaped_char(c: char) -> Seq<char> {
    if c == '"' {
        seq!['\\', '"']
    } else if c == '\\' {
        seq!['\\', '\\']
    } else if c == '\u{8}' {
        seq!['\\', 'b']
    } else if c == '\u{9}' {
        seq!['\\', 't']
    } else if c == '\u{a}' {
        seq!['\\', 'n']
    } else if c == '\u{c}' {
        seq!['\\', 'f']
    } else if c == '\u{d}' {
        seq!['\\', 'r']
    } else if (c as u32) < 0x20 {
        seq!['\\', 'u', '0', '0', hex_digit((c as u32) as int / 16), hex_digit((c as u32) as int % 16)]
    } else {
        seq![c]
    }
}

/// The characters of `s`, each escaped for a JSON string.
pub open spec fn escaped(s: Seq<char>) -> Seq<char>
    decreases s.len(),
{
    if s.len() == 0 {
        Seq::empty()
    } else {
        escaped(s.drop_last()) + escaped_char(s.last())
    }
}

/// `s` as a JSON string literal: escaped, between double quotes.
pub open spec fn json_quoted(s: Seq<char>) -> Seq<char> {
    seq!['"'] + escaped(s) + seq!['"']
}

/// Parses `text` as one JSON object and hands out its members.
///
/// Trusted: calls `serde_json::from_str` for a `serde_json::Value`. The result
/// is `None` unless the text is one JSON object; then each member comes out
/// under its key, `null`, booleans and strings as themselves and every other
/// value as the compact text that `serde_json` prints for it. The contract
/// only names that result.
#[verifier::external_body]
pub(crate) fn parse_object(text: &str) -> (r: Option<Vec<JsonMember>>)
    ensures
        match r {
            Some(members) => json_object_members(text@) == Some(members_view(members@)),
            None => json_object_members(text@) is None,
        },
{
    let parsed = serde_json::from_str::<serde_json::Value>(text);
    let Ok(serde_json::Value::Object(map)) = parsed else { return None; };
    let mut members = Vec::new();
    for (key, value) in map {
        let field = match value {
            serde_json::Value::Null => JsonField::Null,
            serde_json::Value::Bool(flag) => JsonField::Flag(flag),
            serde_json::Value::String(string) => JsonField::Text(string),
            other => JsonField::Raw(other.to_string()),
        };
        members.push(JsonMember { key, value: field });
    }
    Some(members)
}

/// Writes `s` as a JSON string literal.
///
/// Trusted: prints `serde_json::Value::String` with its `Display`, which
/// writes compact JSON. The contract states the escaping that `serde_json`
/// applies to a string.
#[verifier::external_body]
pub(crate) fn json_quote(s: &str) -> (r: String)
    ensures
        r@ == json_quoted(s@),
{
    serde_json::Value::String(s.to_owned()).to_string()
}

/// The member stored under `key`: the first one, should the key occur twice.
pub open spec fn member_of(members: Seq<JsonMemberView>, key: Seq<char>) -> Option<JsonFieldView>
    decreases members.len(),
{
    if members.len() == 0 {
        None
    } else if members[0].key == key {
        Some(members[0].value)
    } else {
        member_of(members.drop_first(), key)
    }
}

/// Looks up the member stored under `key`.
pub fn find_member<'a>(members: &'a Vec<JsonMember>, key: &str) -> (r: Option<&'a JsonField>)
    ensures
        match r {
            Some(field) => member_of(members_view(members@), key@) == Some(field@),
            None => member_of(members_view(members@), key@) is None,
        },
{
    let mut i: usize = 0;
    let ghost all = members_view(members@);
    assert(all.skip(0) =~= all);
    while i < members.len()
        invariant
            0 <= i <= members.len(),
            all == members_view(members@),
            member_of(all, key@) == member_of(all.skip(i as int), key@),
        decreases members.len() - i,
    {
        let member = &members[i];
        assert(all.skip(i as int)[0] == member@);
        if crate::text::text_eq(member.key.as_str(), key) {
            return Some(&member.value);
        }
        assert(all.skip(i as int).drop_first() =~= all.skip(i as int + 1));
        i += 1;
    }
    None
}

/// The JSON text that stands for a member.
pub open spec fn field_text(field: JsonFieldView) -> Seq<char> {
    match field {
        JsonFieldView::Null => "null"@,
        JsonFieldView::Flag(b) => if b { "true"@ } else { "false"@ },
        JsonFieldView::Text(s) => json_quoted(s),
        JsonFieldView::Raw(s) => s,
    }
}

/// Writes a member back as JSON text.
pub fn field_to_text(field: &JsonField) -> (r: String)
    ensures
        r@ == field_text(field@),
{
    match field {
        JsonField::Null => String::from_str("null"),
        JsonField::Flag(b) => if *b { String::from_str("true") } else { String::from_str("false") },
        JsonField::Text(s) => json_quote(s.as_str()),
        JsonField::Raw(s) => s.clone(),
    }
}

} // verus!
