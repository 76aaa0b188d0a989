use vstd::prelude::*;
use serde_json::Value;

verus! {

/// serde_json's `Value`, carried as it is.
#[verifier::external_type_specification]
#[verifier::external_body]
pub struct ExValue(Value);

/// serde_json's `Error`, the error of `from_str`.
#[verifier::external_type_specification]
#[verifier::external_body]
pub struct ExJsonError(serde_json::Error);

/// Whether a text is one complete JSON document, as serde_json reads it.
pub uninterp spec fn is_json_text(s: Seq<char>) -> bool;

/// A lowercase hexadecimal digit.
pub open spec fn hex_digit(n: int) -> char {
    "0123456789abcdef"@[n]
}

/// How a JSON string literal writes one character: a quote and a backslash
/// behind a backslash; backspace, tab, line feed, form feed and carriage
/// return by their letters; any other character below the space as `\u00`
/// and two hex digits; every other character as itself.
pub open spec fn escape_char(c: char) -> Seq<char> {
    if c == '"' {
        seq!['\\', '"']
    } else if c == '\\' {
        seq!['\\', '\\']
    } else if c == '\x08' {
        seq!['\\', 'b']
    } else if c == '\t' {
        seq!['\\', 't']
    } else if c == '\n' {
        seq!['\\', 'n']
    } else if c == '\x0c' {
        seq!['\\', 'f']
    } else if c == '\r' {
        seq!['\\', 'r']
    } else if (c as u32) < 32 {
        seq!['\\', 'u', '0', '0', hex_digit(c as int / 16), hex_digit(c as int % 16)]
    } else {
        seq![c]
    }
}

/// The characters of `s`, each written as `escape_char` writes it.
pub open spec fn escaped(s: Seq<char>) -> Seq<char>
    decreases s.len(),
{
    if s.len() == 0 {
        Seq::empty()
    } else {
        escaped(s.drop_last()) + escape_char(s.last())
    }
}

/// The compact JSON string literal for a text: quotes round its escaped
/// characters.
pub open spec fn json_quoted(s: Seq<char>) -> Seq<char> {
    seq!['"'] + escaped(s) + seq!['"']
}

/// What the JSON document `text` holds under `key`, by kind: 0 where the
/// text is not a JSON object, 1 where the key is missing, 2 for `null`, 3 for
/// a string, 4 for any other value.
pub uninterp spec fn json_member_kind(text: Seq<char>, key: Seq<char>) -> u8;

/// The string that the JSON document `text` holds under `key`, where it holds one.
pub uninterp spec fn json_member_string(text: Seq<char>, key: Seq<char>) -> Seq<char>;

/// What a JSON document holds under one key, as far as a job record cares.
#[derive(Debug)]
pub enum Member {
    /// The document is not a JSON object.
    NotObject,
    /// The object has no such key.
    Absent,
    /// The key holds `null`.
    Null,
    /// The key holds a string: the string, and the value that holds it.
    Text(String, Value),
    /// The key holds a number, a boolean, an array or an object.
    Other(Value),
}

/// The kind of a member, numbered as `json_member_kind` numbers them.
pub open spec fn member_kind(m: Member) -> u8 {
    match m {
        Member::NotObject => 0,
        Member::Absent => 1,
        Member::Null => 2,
        Member::Text(..) => 3,
        Member::Other(_) => 4,
    }
}

/// Relies on `serde_json::from_str::<Value>`: whether it succeeds depends on
/// the text alone.
#[verifier::external_body]
pub(crate) fn parse_json(text: &str) -> (r: Result<Value, serde_json::Error>)
    ensures
        r is Ok <==> is_json_text(text@),
{
    serde_json::from_str::<Value>(text)
}

/// Relies on `serde_json::from_str::<Value>` and on `Map::remove` of
/// serde_json: what the document `text` holds under `key`, telling the
/// variants of the value apart.
#[verifier::external_body]
pub(crate) fn member_in(text: &str, key: &str) -> (r: Member)
    ensures
        member_kind(r) == json_member_kind(text@, key@),
        r is Text ==> r->Text_0@ == json_member_string(text@, key@),
{
    match serde_json::from_str::<Value>(text) {
        Ok(Value::Object(mut map)) => match map.remove(key) {
            None => Member::Absent,
            Some(Value::Null) => Member::Null,
            Some(Value::String(s)) => Member::Text(s.clone(), Value::String(s)),
            Some(other) => Member::Other(other),
        },
        _ => Member::NotObject,
    }
}

/// Relies on serde_json's `Display` for `Value`, which writes the compact
/// form, here of a JSON string: its escape table and `write_char_escape`
/// write each character as `escape_char` says.
#[verifier::external_body]
pub(crate) fn quoted(s: &str) -> (r: String)
    ensures
        r@ == json_quoted(s@),
{
    Value::from(s).to_string()
}

/// Relies on serde_json's `Display` for `Error`: a message for a parse failure.
#[verifier::external_body]
pub(crate) fn error_message(e: &serde_json::Error) -> (r: String) {
    e.to_string()
}

} // verus!
