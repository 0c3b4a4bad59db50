//! Reading the members of a parsed JSON object.
//!
//! A member is present only if it has the kind asked for: a string where a
//! number is expected counts as absent.

use crate::json::as_boolean;
use crate::json::as_string;
use crate::json::as_unsigned;
use crate::json::json_boolean;
use crate::json::json_member;
use crate::json::json_string;
use crate::json::json_unsigned;
use crate::json::member;
use vstd::prelude::*;

verus! {

/// The string under `key` in `doc`.
pub open spec fn text_member(doc: serde_json::Value, key: Seq<char>) -> Option<Seq<char>> {
    match json_member(doc, key) {
        Some(m) => json_string(m),
        None => None,
    }
}

/// The unsigned integer under `key` in `doc`.
pub open spec fn unsigned_member(doc: serde_json::Value, key: Seq<char>) -> Option<u64> {
    match json_member(doc, key) {
        Some(m) => json_unsigned(m),
        None => None,
    }
}

/// The boolean under `key` in `doc`.
pub open spec fn boolean_member(doc: serde_json::Value, key: Seq<char>) -> Option<bool> {
    match json_member(doc, key) {
        Some(m) => json_boolean(m),
        None => None,
    }
}

/// Reads the string under `key` in `doc`.
pub fn read_text_member(doc: &serde_json::Value, key: &str) -> (r: Option<String>)
    ensures
        match r {
            Some(s) => text_member(*doc, key@) == Some(s@),
            None => text_member(*doc, key@) is None,
        },
{
    match member(doc, key) {
        Some(m) => match as_string(m) {
            Some(s) => Some(s.to_owned()),
            None => None,
        },
        None => None,
    }
}

/// Reads the unsigned integer under `key` in `doc`.
pub fn read_unsigned_member(doc: &serde_json::Value, key: &str) -> (r: Option<u64>)
    ensures
        r == unsigned_member(*doc, key@),
{
    match member(doc, key) {
        Some(m) => as_unsigned(m),
        None => None,
    }
}

/// Reads the boolean under `key` in `doc`.
pub fn read_boolean_member(doc: &serde_json::Value, key: &str) -> (r: Option<bool>)
    ensures
        r == boolean_member(*doc, key@),
{
    match member(doc, key) {
        Some(m) => as_boolean(m),
        None => None,
    }
}

} // verus!
