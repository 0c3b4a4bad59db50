//! The JSON reader and writer that the wire format rests on.
//!
//! Nothing in this module is proved. Each item states what `serde_json` does,
//! and the rest of the library is verified against these statements. The
//! functions of `serde_json` used here compute from their arguments alone.
//! What the writer writes for a string is spelled out; what the reader makes
//! of a text has a name that contracts elsewhere can speak of.

use vstd::prelude::*;
use vstd::utf8::encode_utf8;

verus! {

/// A parsed JSON document, as `serde_json` holds it. Its inside is not
/// visible to the verifier; it is read through the functions below.
#[verifier::external_type_specification]
#[verifier::external_body]
pub struct ExJsonValue(serde_json::Value);

/// The error of `serde_json`. The library does not look into it.
#[verifier::external_type_specification]
#[verifier::external_body]
pub struct ExJsonError(serde_json::Error);

/// The document that `serde_json::from_slice` reads from `text`, or `None`
/// where it rejects the text.
pub uninterp spec fn json_document(text: Seq<u8>) -> Option<serde_json::Value>;

/// The member that `serde_json::Value::get` finds in `doc` under the string
/// key `key`, or `None` where `doc` is no object or has no such member.
pub uninterp spec fn json_member(doc: serde_json::Value, key: Seq<char>) -> Option<
    serde_json::Value,
>;

/// What `serde_json::Value::as_str` gives for `doc`: its characters where it
/// is a JSON string, `None` otherwise.
pub uninterp spec fn json_string(doc: serde_json::Value) -> Option<Seq<char>>;

/// What `serde_json::Value::as_u64` gives for `doc`: its value where it is a
/// number written as an integer from 0 to 2^64 - 1, `None` otherwise.
pub uninterp spec fn json_unsigned(doc: serde_json::Value) -> Option<u64>;

/// What `serde_json::Value::as_bool` gives for `doc`: its value where it is
/// `true` or `false`, `None` otherwise.
pub uninterp spec fn json_boolean(doc: serde_json::Value) -> Option<bool>;

/// The byte of the hexadecimal digit `d`, in lower case.
pub open spec fn hex_digit_byte(d: int) -> u8
    recommends
        0 <= d < 16,
{
    if d < 10 {
        (0x30 + d) as u8
    } else {
        (0x61 + (d - 10)) as u8
    }
}

/// The bytes that `serde_json` writes for one character of a string. The
/// quote and the backslash get a backslash in front; backspace, tab, line
/// feed, form feed and carriage return are written as `\b`, `\t`, `\n`,
/// `\f` and `\r`; any other character below the space is written as
/// `\u00` and two hexadecimal digits; every other character is written as
/// it is, in UTF-8.
pub open spec fn escaped_char(c: char) -> Seq<u8> {
    if c == '"' {
        seq![0x5cu8, 0x22u8]
    } else if c == '\\' {
        seq![0x5cu8, 0x5cu8]
    } else if c == '\u{8}' {
        seq![0x5cu8, 0x62u8]
    } else if c == '\t' {
        seq![0x5cu8, 0x74u8]
    } else if c == '\n' {
        seq![0x5cu8, 0x6eu8]
    } else if c == '\u{c}' {
        seq![0x5cu8, 0x66u8]
    } else if c == '\r' {
        seq![0x5cu8, 0x72u8]
    } else if (c as u32) < 0x20 {
        seq![
            0x5cu8,
            0x75u8,
            0x30u8,
            0x30u8,
            hex_digit_byte((c as int) / 16),
            hex_digit_byte((c as int) % 16),
        ]
    } else {
        encode_utf8(seq![c])
    }
}

/// The bytes that `serde_json` writes for the characters of a string, one
/// after the other.
pub open spec fn escaped_text(s: Seq<char>) -> Seq<u8>
    decreases s.len(),
{
    if s.len() == 0 {
        seq![]
    } else {
        escaped_char(s[0]) + escaped_text(s.drop_first())
    }
}

/// The bytes that `serde_json::to_vec` writes for a string: its characters
/// between two double quotes, escaped as [`escaped_char`] says.
pub open spec fn json_string_text(s: Seq<char>) -> Seq<u8> {
    seq![0x22u8] + escaped_text(s) + seq![0x22u8]
}

/// Calls `serde_json::from_slice` for a `serde_json::Value`. It succeeds
/// where the whole of `text` is one JSON value, surrounded by white space at
/// most, and what it returns depends on the bytes alone.
#[verifier::external_body]
pub(crate) fn parse_document(text: &[u8]) -> (r: Result<serde_json::Value, serde_json::Error>)
    ensures
        match r {
            Ok(doc) => json_document(text@) == Some(doc),
            Err(_) => json_document(text@) is None,
        },
{
    serde_json::from_slice::<serde_json::Value>(text)
}

/// Calls `serde_json::Value::get` with a string key.
#[verifier::external_body]
pub(crate) fn member<'a>(doc: &'a serde_json::Value, key: &str) -> (r: Option<
    &'a serde_json::Value,
>)
    ensures
        match r {
            Some(m) => json_member(*doc, key@) == Some(*m),
            None => json_member(*doc, key@) is None,
        },
{
    doc.get(key)
}

/// Calls `serde_json::Value::as_str`.
#[verifier::external_body]
pub(crate) fn as_string<'a>(doc: &'a serde_json::Value) -> (r: Option<&'a str>)
    ensures
        match r {
            Some(s) => json_string(*doc) == Some(s@),
            None => json_string(*doc) is None,
        },
{
    doc.as_str()
}

/// Calls `serde_json::Value::as_u64`.
#[verifier::external_body]
pub(crate) fn as_unsigned(doc: &serde_json::Value) -> (r: Option<u64>)
    ensures
        r == json_unsigned(*doc),
{
    doc.as_u64()
}

/// Calls `serde_json::Value::as_bool`.
#[verifier::external_body]
pub(crate) fn as_boolean(doc: &serde_json::Value) -> (r: Option<bool>)
    ensures
        r == json_boolean(*doc),
{
    doc.as_bool()
}

/// Calls `serde_json::to_vec` on a string. It always succeeds: the only
/// errors of writing a string are those of the writer, and the writer here is
/// a byte vector, which takes every write. What it writes is compact JSON:
/// the quotes, and between them each character as the escape table of
/// `serde_json` has it.
#[verifier::external_body]
pub(crate) fn write_string(s: &str) -> (r: Result<Vec<u8>, serde_json::Error>)
    ensures
        match r {
            Ok(text) => text@ == json_string_text(s@),
            Err(_) => false,
        },
{
    serde_json::to_vec(s)
}

} // verus!
