//! JSON documents, read through `serde_json`.
//!
//! A `serde_json::Value` is opaque to the verifier. What the library reads
//! of one is named by three spec functions without a body, `json_items`,
//! `json_member` and `json_text`, and what a text parses to by a fourth,
//! `json_parse`. The four functions `parse`, `items`, `member` and `text`
//! call into `serde_json`; their contracts are trusted, not proved.

use vstd::prelude::*;

verus! {

/// Declares `serde_json::Value` as a type whose inside the verifier does not
/// see.
#[verifier::external_type_specification]
#[verifier::external_body]
pub struct ExValue(serde_json::Value);

/// The document that a text parses to, or `None` where it is not one JSON
/// document.
pub uninterp spec fn json_parse(text: Seq<char>) -> Option<serde_json::Value>;

/// The elements of a JSON array, or `None` for any other value.
pub uninterp spec fn json_items(value: serde_json::Value) -> Option<Seq<serde_json::Value>>;

/// The member of a JSON object under `key`, or `None` where the value is no
/// object or has no such member.
pub uninterp spec fn json_member(value: serde_json::Value, key: Seq<char>) -> Option<
    serde_json::Value,
>;

/// The text of a JSON string, or `None` for any other value.
pub uninterp spec fn json_text(value: serde_json::Value) -> Option<Seq<char>>;

/// Trusted: calls `serde_json::from_str` for a `Value` and drops the error.
/// The contract claims only that the outcome is a function of the text, the
/// one named `json_parse`.
#[verifier::external_body]
pub(crate) fn parse(text: &str) -> (r: Option<serde_json::Value>)
    ensures
        r == json_parse(text@),
{
    serde_json::from_str(text).ok()
}

/// Trusted: calls `Value::as_array`, which hands out the vector inside an
/// array and `None` for any other value. The contract claims that this is
/// what `json_items` names.
#[verifier::external_body]
pub(crate) fn items(value: &serde_json::Value) -> (r: Option<&Vec<serde_json::Value>>)
    ensures
        match r {
            Some(v) => json_items(*value) == Some(v@),
            None => json_items(*value) is None,
        },
{
    value.as_array()
}

/// Trusted: calls `Value::get` with a string key, which hands out the member
/// of an object under that key, and `None` where the value is no object or
/// the key is absent. The contract claims that this is what `json_member`
/// names.
#[verifier::external_body]
pub(crate) fn member<'a>(value: &'a serde_json::Value, key: &str) -> (r: Option<
    &'a serde_json::Value,
>)
    ensures
        match r {
            Some(m) => json_member(*value, key@) == Some(*m),
            None => json_member(*value, key@) is None,
        },
{
    value.get(key)
}

/// Trusted: calls `Value::as_str`, which hands out the text inside a string
/// and `None` for any other value. The contract claims that this is what
/// `json_text` names.
#[verifier::external_body]
pub(crate) fn text(value: &serde_json::Value) -> (r: Option<&str>)
    ensures
        match r {
            Some(s) => json_text(*value) == Some(s@),
            None => json_text(*value) is None,
        },
{
    value.as_str()
}

/// The text of the member under `key`, where `value` is an object that has
/// a string there.
pub open spec fn member_text(value: serde_json::Value, key: Seq<char>) -> Option<Seq<char>> {
    match json_member(value, key) {
        Some(m) => json_text(m),
        None => None,
    }
}

/// The text of the member of an object under `key`, where it has a string
/// there.
pub fn text_member<'a>(value: &'a serde_json::Value, key: &str) -> (r: Option<&'a str>)
    ensures
        match r {
            Some(s) => member_text(*value, key@) == Some(s@),
            None => member_text(*value, key@) is None,
        },
{
    match member(value, key) {
        Some(m) => text(m),
        None => None,
    }
}

} // verus!
