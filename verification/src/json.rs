//! Reading JSON documents with `serde_json`.
//!
//! A document is parsed once into a `serde_json::Value`; what the library
//! needs of it is read member by member.

use vstd::prelude::*;

verus! {

/// `serde_json::Value`, a parsed JSON document. It is read only through the
/// functions below.
#[verifier::external_type_specification]
#[verifier::external_body]
pub struct ExJsonValue(serde_json::Value);

/// `serde_json::Error`, the error of the JSON parser. Nothing is read from
/// it.
#[verifier::external_type_specification]
#[verifier::external_body]
pub struct ExJsonError(serde_json::Error);

/// The value that `serde_json::from_str` reads from `text`; `None` where it
/// reports an error.
pub uninterp spec fn json_parsed(text: Seq<char>) -> Option<serde_json::Value>;

/// The members of a JSON object, by key. Any other value has none.
pub uninterp spec fn json_members(value: serde_json::Value) -> Map<Seq<char>, serde_json::Value>;

/// The text of a JSON string. Any other value has none.
pub uninterp spec fn json_text(value: serde_json::Value) -> Option<Seq<char>>;

/// The number that a JSON value holds, where it is an integer from 0 to
/// `u64::MAX`. Any other value has none.
pub uninterp spec fn json_unsigned(value: serde_json::Value) -> Option<u64>;

/// Calls `serde_json::from_str` for a `serde_json::Value`.
///
/// Trusted: the outcome depends on the text alone.
#[verifier::external_body]
pub(crate) fn parse_json(text: &str) -> (parsed: Result<serde_json::Value, serde_json::Error>)
    ensures
        parsed is Ok <==> json_parsed(text@) is Some,
        parsed matches Ok(value) ==> json_parsed(text@) == Some(value),
{
    serde_json::from_str::<serde_json::Value>(text)
}

/// Calls `serde_json::Value::get` with a string key.
///
/// Trusted: it returns the member of that key where the value is an object
/// that has one, and `None` otherwise.
#[verifier::external_body]
pub(crate) fn json_member<'a>(value: &'a serde_json::Value, key: &str) -> (member: Option<
    &'a serde_json::Value,
>)
    ensures
        member is Some <==> json_members(*value).contains_key(key@),
        member matches Some(found) ==> *found == json_members(*value)[key@],
{
    value.get(key)
}

/// `serde_json::Value::as_str` returns the text of a string and `None` for
/// any other value.
pub assume_specification[ serde_json::Value::as_str ](value: &serde_json::Value) -> (text: Option<
    &str,
>)
    ensures
        text is Some <==> json_text(*value) is Some,
        text matches Some(found) ==> json_text(*value) == Some(found@),
;

/// `serde_json::Value::as_u64` returns the number where the value is an
/// integer that fits `u64`, and `None` for any other value.
pub assume_specification[ serde_json::Value::as_u64 ](value: &serde_json::Value) -> (number:
    Option<u64>)
    ensures
        number == json_unsigned(*value),
;

} // verus!
