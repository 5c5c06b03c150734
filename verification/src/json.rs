//! The few operations of `serde_json` that the library relies on. A JSON
//! value is opaque here: it is carried through, and what is read out of it
//! is handed to verified code as plain values.

use vstd::prelude::*;

verus! {

/// `serde_json::Value`, a parsed JSON document, carried as an opaque value.
#[verifier::external_type_specification]
#[verifier::external_body]
pub struct ExJsonValue(serde_json::Value);

/// What `serde_json::from_str::<Value>` gives for a text: the document, when
/// the text is a single JSON value surrounded by nothing but whitespace.
/// Depends on the text alone.
pub uninterp spec fn json_parse(text: Seq<char>) -> Option<serde_json::Value>;

/// Parses `text` as one JSON document with `serde_json::from_str::<Value>`.
/// Claimed: the outcome is `json_parse` of the text; which texts parse, and
/// to what, is left to `serde_json`.
#[verifier::external_body]
pub(crate) fn parse_json(text: &str) -> (res: Option<serde_json::Value>)
    ensures
        res == json_parse(text@),
{
    serde_json::from_str::<serde_json::Value>(text).ok()
}

/// What `Value::get` with a string key gives: the member of that name when
/// the value is an object that has one. Depends on the value and the key alone.
pub uninterp spec fn json_get(value: serde_json::Value, key: Seq<char>) -> Option<serde_json::Value>;

/// What `Value::as_str` gives: the text of a JSON string. Depends on the value alone.
pub uninterp spec fn json_str(value: serde_json::Value) -> Option<Seq<char>>;

/// What `Value::as_u64` gives: a JSON number that fits in a `u64`. Depends on
/// the value alone.
pub uninterp spec fn json_u64(value: serde_json::Value) -> Option<u64>;

/// `Value::get` with a string key. Claimed: the result is `json_get` of the
/// value and the key; what that member is, for a given document, is left to
/// `serde_json`.
#[verifier::external_body]
pub(crate) fn json_member<'a>(value: &'a serde_json::Value, key: &str) -> (res: Option<
    &'a serde_json::Value,
>)
    ensures
        match res {
            Some(member) => json_get(*value, key@) == Some(*member),
            None => json_get(*value, key@) is None,
        },
{
    value.get(key)
}

/// `Value::as_str`. Claimed: the result's text is `json_str` of the value;
/// which values are strings is left to `serde_json`.
#[verifier::external_body]
pub(crate) fn json_as_str<'a>(value: &'a serde_json::Value) -> (res: Option<&'a str>)
    ensures
        match res {
            Some(text) => json_str(*value) == Some(text@),
            None => json_str(*value) is None,
        },
{
    value.as_str()
}

/// `Value::as_u64`. Claimed: the result is `json_u64` of the value; which
/// values are such numbers is left to `serde_json`.
#[verifier::external_body]
pub(crate) fn json_as_u64(value: &serde_json::Value) -> (res: Option<u64>)
    ensures
        res == json_u64(*value),
{
    value.as_u64()
}

/// The text of the string member `key` of a JSON value: its member of that
/// name, if it has one and that member is a string.
pub open spec fn json_text_member(value: serde_json::Value, key: Seq<char>) -> Option<Seq<char>> {
    match json_get(value, key) {
        Some(member) => json_str(member),
        None => None,
    }
}

/// The member `key` of a JSON value, if it has one and that member is a
/// number that fits in a `u64`.
pub open spec fn json_number_member(value: serde_json::Value, key: Seq<char>) -> Option<u64> {
    match json_get(value, key) {
        Some(member) => json_u64(member),
        None => None,
    }
}

/// The text of the string member `key` of a JSON object, if it has one.
pub(crate) fn json_string_member<'a>(value: &'a serde_json::Value, key: &str) -> (res: Option<&'a str>)
    ensures
        match res {
            Some(text) => json_text_member(*value, key@) == Some(text@),
            None => json_text_member(*value, key@) is None,
        },
{
    match json_member(value, key) {
        Some(member) => json_as_str(member),
        None => None,
    }
}

/// The member `key` of a JSON object, if it is a number that fits in a `u64`.
pub(crate) fn json_u64_member(value: &serde_json::Value, key: &str) -> (res: Option<u64>)
    ensures
        res == json_number_member(*value, key@),
{
    match json_member(value, key) {
        Some(member) => json_as_u64(member),
        None => None,
    }
}

} // verus!
