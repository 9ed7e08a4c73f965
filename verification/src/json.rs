//! The JSON operations that the library takes from `serde_json`.
//!
//! JSON documents travel through the library as text. Reading a member of a
//! document, checking that a text parses, and quoting a string are done by
//! `serde_json`; what those calls return is named below, and the verified code
//! states its results in terms of these names.

use vstd::prelude::*;

use crate::text::opt_view;

verus! {

/// Whether `text` parses as a JSON document (`serde_json::from_str::<Value>`
/// succeeds).
pub uninterp spec fn json_parses(text: Seq<char>) -> bool;

/// The string held by member `key` of the JSON object in `text`: `None` where
/// `text` does not parse, is not an object, has no such member, or the member
/// is not a string.
pub uninterp spec fn json_string_member(text: Seq<char>, key: Seq<char>) -> Option<Seq<char>>;

/// The boolean held by member `key` of the JSON object in `text`, as for
/// [`json_string_member`].
pub uninterp spec fn json_bool_member(text: Seq<char>, key: Seq<char>) -> Option<bool>;

/// The compact JSON text of member `key` of the JSON object in `text`, of
/// whatever kind it is; `None` where `text` does not parse, is not an object or
/// has no such member.
pub uninterp spec fn json_member_text(text: Seq<char>, key: Seq<char>) -> Option<Seq<char>>;

/// Lower-case hexadecimal digit of `n` (`0 <= n < 16`).
pub open spec fn hex_digit(n: int) -> char {
    seq!['0', '1', '2', '3', '4', '5', '6', '7', '8', '9', 'a', 'b', 'c', 'd', 'e', 'f'][n]
}

/// How `serde_json` writes one character inside a string literal: quote and
/// backslash are escaped, backspace, tab, line feed, form feed and carriage
/// return get their short escapes, other characters below U+0020 become
/// `\u00xx` (lower-case hex), and every other character stands as it is.
pub open spec fn escaped_char(c: char) -> Seq<char> {
    let u = c as u32;
    if c == '"' {
        seq!['\\', '"']
    } else if c == '\\' {
        seq!['\\', '\\']
    } else if u == 0x08 {
        seq!['\\', 'b']
    } else if u == 0x09 {
        seq!['\\', 't']
    } else if u == 0x0A {
        seq!['\\', 'n']
    } else if u == 0x0C {
        seq!['\\', 'f']
    } else if u == 0x0D {
        seq!['\\', 'r']
    } else if u < 0x20 {
        seq!['\\', 'u', '0', '0', hex_digit((u / 16) as int), hex_digit((u % 16) as int)]
    } else {
        seq![c]
    }
}

/// The characters of `s`, each written as in a JSON string literal.
pub open spec fn escaped(s: Seq<char>) -> Seq<char>
    decreases s.len(),
{
    if s.len() == 0 {
        Seq::empty()
    } else {
        escaped(s.drop_last()) + escaped_char(s.last())
    }
}

/// The JSON string literal that encodes `s`, as `serde_json` writes it.
pub open spec fn json_quoted(s: Seq<char>) -> Seq<char> {
    seq!['"'] + escaped(s) + seq!['"']
}

/// Calls `serde_json::from_str::<serde_json::Value>` on `text` and reports
/// whether it succeeded. The contract claims only that the answer is the named
/// property [`json_parses`] of the text.
#[verifier::external_body]
pub(crate) fn parses_as_json(text: &str) -> (r: bool)
    ensures
        r == json_parses(text@),
{
    serde_json::from_str::<serde_json::Value>(text).is_ok()
}

/// Parses `text` with `serde_json::from_str::<serde_json::Value>`, looks the
/// member up with `Value::get` and reads it with `Value::as_str`. The contract
/// claims that the answer is the named [`json_string_member`], and that nothing
/// is found in a text that does not parse (the lookup runs on the parse result
/// only).
#[verifier::external_body]
pub(crate) fn string_member(text: &str, key: &str) -> (r: Option<String>)
    ensures
        opt_view(r) == json_string_member(text@, key@),
        !json_parses(text@) ==> r is None,
{
    let doc: Option<serde_json::Value> = serde_json::from_str(text).ok();
    doc.and_then(|v| v.get(key).and_then(|m| m.as_str()).map(|s| s.to_string()))
}

/// Parses `text` with `serde_json::from_str::<serde_json::Value>`, looks the
/// member up with `Value::get` and reads it with `Value::as_bool`. The contract
/// claims that the answer is the named [`json_bool_member`], and that nothing is
/// found in a text that does not parse.
#[verifier::external_body]
pub(crate) fn bool_member(text: &str, key: &str) -> (r: Option<bool>)
    ensures
        r == json_bool_member(text@, key@),
        !json_parses(text@) ==> r is None,
{
    let doc: Option<serde_json::Value> = serde_json::from_str(text).ok();
    doc.and_then(|v| v.get(key).and_then(|m| m.as_bool()))
}

/// Parses `text` with `serde_json::from_str::<serde_json::Value>`, looks the
/// member up with `Value::get` and writes it back as compact JSON text with
/// `Value::to_string`. The contract claims that the answer is the named
/// [`json_member_text`], and that nothing is found in a text that does not
/// parse.
#[verifier::external_body]
pub(crate) fn member_text(text: &str, key: &str) -> (r: Option<String>)
    ensures
        opt_view(r) == json_member_text(text@, key@),
        !json_parses(text@) ==> r is None,
{
    let doc: Option<serde_json::Value> = serde_json::from_str(text).ok();
    doc.and_then(|v| v.get(key).map(|m| m.to_string()))
}

/// Encodes `s` as a JSON string literal with `serde_json::to_string`, which
/// cannot fail on a string. The contract claims that the result is
/// [`json_quoted`] of `s`: the escape table of `serde_json`'s string writer.
#[verifier::external_body]
pub(crate) fn quote(s: &str) -> (r: String)
    ensures
        r@ == json_quoted(s@),
{
    serde_json::to_string(s).unwrap_or_default()
}

} // verus!
