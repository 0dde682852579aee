//! Reading JSON documents.
//!
//! The documents are parsed and held by `serde_json`. This module gives what
//! the library reads from them a name, so that what is built from a document
//! can be stated exactly.

use serde_json::Value;
use vstd::prelude::*;
use vstd::string::*;

verus! {

/// `serde_json::Value`, a parsed JSON value. Verus sees nothing inside it.
#[verifier::external_type_specification]
#[verifier::external_body]
pub struct ExValue(Value);

/// The JSON value that a text denotes, if it is well-formed JSON.
pub uninterp spec fn json_parsed(text: Seq<char>) -> Option<Value>;

/// The member of a JSON object under a key; none where the value is no
/// object or has no such key.
pub uninterp spec fn json_member(value: Value, key: Seq<char>) -> Option<Value>;

/// The characters of a JSON string; none where the value is no string.
pub uninterp spec fn json_text(value: Value) -> Option<Seq<char>>;

/// The elements of a JSON array, in order; none where the value is no array.
pub uninterp spec fn json_items(value: Value) -> Option<Seq<Value>>;

/// Calls `serde_json::from_str` for a `Value` and drops the error. Trusted:
/// what comes back is what this library calls `json_parsed` of the text.
#[verifier::external_body]
pub(crate) fn parse(text: &str) -> (value: Option<Value>)
    ensures
        value == json_parsed(text@),
{
    serde_json::from_str::<Value>(text).ok()
}

/// Calls `Value::get` with a string key, which looks the key up where the
/// value is an object and returns `None` otherwise. Trusted: what comes back
/// is what this library calls `json_member` of the value and the key.
#[verifier::external_body]
pub(crate) fn member<'a>(value: &'a Value, key: &str) -> (found: Option<&'a Value>)
    ensures
        match found {
            Some(inner) => json_member(*value, key@) == Some(*inner),
            None => json_member(*value, key@) is None,
        },
{
    value.get(key)
}

/// Calls `Value::as_str`, which returns the string slice where the value is a
/// string and `None` otherwise. Trusted: what comes back is what this library
/// calls `json_text` of the value.
#[verifier::external_body]
pub(crate) fn text<'a>(value: &'a Value) -> (found: Option<&'a str>)
    ensures
        match found {
            Some(chars) => json_text(*value) == Some(chars@),
            None => json_text(*value) is None,
        },
{
    value.as_str()
}

/// Calls `Value::as_array`, which returns the vector of elements where the
/// value is an array and `None` otherwise. Trusted: what comes back is what
/// this library calls `json_items` of the value.
#[verifier::external_body]
pub(crate) fn items<'a>(value: &'a Value) -> (found: Option<&'a Vec<Value>>)
    ensures
        match found {
            Some(elements) => json_items(*value) == Some(elements@),
            None => json_items(*value) is None,
        },
{
    value.as_array()
}

/// The text under a key of a JSON object; none where the value is no object,
/// has no such key, or holds no string there.
pub open spec fn member_text(value: Value, key: Seq<char>) -> Option<Seq<char>> {
    match json_member(value, key) {
        Some(inner) => json_text(inner),
        None => None,
    }
}

/// Reads the text under a key of a JSON object.
pub fn text_at<'a>(value: &'a Value, key: &str) -> (found: Option<&'a str>)
    ensures
        match found {
            Some(chars) => member_text(*value, key@) == Some(chars@),
            None => member_text(*value, key@) is None,
        },
{
    match member(value, key) {
        Some(inner) => text(inner),
        None => None,
    }
}

/// Parses a JSON document.
pub fn parse_document(source: &str) -> (document: Option<Value>)
    ensures
        document == json_parsed(source@),
{
    parse(source)
}

} // verus!
