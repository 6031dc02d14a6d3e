//! The serde_json operations the wire formats rest on.
//!
//! A JSON document is read member by member: each lookup takes the raw bytes
//! and a key, so what it returns is a function of those two alone, named
//! below.
use vstd::prelude::*;

verus! {

/// Whether serde_json reads `doc` as exactly one JSON document
/// (surrounding JSON whitespace allowed, nothing else after it).
pub uninterp spec fn json_document_accepted(doc: Seq<u8>) -> bool;

/// The string under `key` when `doc` is one JSON document holding an object
/// whose member `key` is a JSON string; `None` otherwise.
pub uninterp spec fn json_string_member(doc: Seq<u8>, key: Seq<char>) -> Option<Seq<char>>;

/// The boolean under `key` when `doc` is one JSON document holding an object
/// whose member `key` is `true` or `false`; `None` otherwise.
pub uninterp spec fn json_bool_member(doc: Seq<u8>, key: Seq<char>) -> Option<bool>;

/// Whether `doc` is one JSON document and its member `key` is missing or
/// `null` (a document that is no object has no members).
pub uninterp spec fn json_member_absent_or_null(doc: Seq<u8>, key: Seq<char>) -> bool;

/// Relies on `serde_json::from_slice::<serde_json::Value>`, then
/// `Value::get(key)` and `Value::as_str`: the string member `key` of the
/// document, if the bytes are a document and the member is a string.
#[verifier::external_body]
pub(crate) fn string_member(doc: &[u8], key: &str) -> (r: Option<String>)
    ensures
        match r {
            Some(s) => json_string_member(doc@, key@) == Some(s@),
            None => json_string_member(doc@, key@) is None,
        },
        r is Some ==> json_document_accepted(doc@),
{
    let v = serde_json::from_slice::<serde_json::Value>(doc).ok()?;
    v.get(key).and_then(serde_json::Value::as_str).map(str::to_string)
}

/// Relies on `serde_json::from_slice::<serde_json::Value>`, then
/// `Value::get(key)` and `Value::as_bool`: the boolean member `key` of the
/// document, if the bytes are a document and the member is a boolean.
#[verifier::external_body]
pub(crate) fn bool_member(doc: &[u8], key: &str) -> (r: Option<bool>)
    ensures
        r == json_bool_member(doc@, key@),
        r is Some ==> json_document_accepted(doc@),
{
    let v = serde_json::from_slice::<serde_json::Value>(doc).ok()?;
    v.get(key).and_then(serde_json::Value::as_bool)
}

/// Relies on `serde_json::from_slice::<serde_json::Value>`, then
/// `Value::get(key)` and `Value::is_null`: whether the bytes are a document
/// whose member `key` is missing or `null`.
#[verifier::external_body]
pub(crate) fn member_absent_or_null(doc: &[u8], key: &str) -> (r: bool)
    ensures
        r == json_member_absent_or_null(doc@, key@),
        r ==> json_document_accepted(doc@),
{
    match serde_json::from_slice::<serde_json::Value>(doc) {
        Ok(v) => v.get(key).map_or(true, serde_json::Value::is_null),
        Err(_) => false,
    }
}

/// A lower-case hexadecimal digit.
pub open spec fn hex_digit(n: nat) -> char {
    if n < 10 {
        ((48 + n) as u8) as char
    } else {
        ((87 + n) as u8) as char
    }
}

/// How serde_json writes one character inside a string literal: `"` and `\`
/// behind a backslash, the short escapes `\b \t \n \f \r`, any other
/// character below U+0020 as `\u00xx`, everything else as it is.
pub open spec fn json_char_escape(c: char) -> Seq<char> {
    if c == '"' {
        seq!['\\', '"']
    } else if c == '\\' {
        seq!['\\', '\\']
    } else if c == '\u{8}' {
        seq!['\\', 'b']
    } else if c == '\t' {
        seq!['\\', 't']
    } else if c == '\n' {
        seq!['\\', 'n']
    } else if c == '\u{c}' {
        seq!['\\', 'f']
    } else if c == '\r' {
        seq!['\\', 'r']
    } else if (c as u32) < 32 {
        seq!['\\', 'u', '0', '0', hex_digit((c as u32 / 16) as nat), hex_digit((c as u32 % 16) as nat)]
    } else {
        seq![c]
    }
}

pub open spec fn json_escaped(s: Seq<char>) -> Seq<char>
    decreases s.len(),
{
    if s.len() == 0 {
        Seq::empty()
    } else {
        json_escaped(s.drop_last()) + json_char_escape(s.last())
    }
}

/// The JSON string literal for `s`: quotes around its escaped characters.
pub open spec fn json_quoted(s: Seq<char>) -> Seq<char> {
    seq!['"'] + json_escaped(s) + seq!['"']
}

/// Relies on `serde_json::to_string` applied to a `str` (its escape table in
/// `format_escaped_str`). Serialising a string into memory has no failing
/// path in serde_json (its writer is a `Vec`), so the default branch is
/// never taken.
#[verifier::external_body]
pub(crate) fn json_string_literal(s: &str) -> (r: String)
    ensures
        r@ == json_quoted(s@),
{
    serde_json::to_string(s).unwrap_or_default()
}

} // verus!
