//! JSON documents, read by serde_json. Nothing here is proved: each item
//! states what serde_json does, and the rest of the library builds on it.

use vstd::prelude::*;

verus! {

/// A JSON document as serde_json holds it. Its inside is reached only
/// through the functions below.
#[verifier::external_type_specification]
#[verifier::external_body]
pub struct ExJsonValue(serde_json::Value);

/// What `serde_json::from_str` makes of a text when asked for a
/// `serde_json::Value`: the document, or the error with which it rejects the text.
pub uninterp spec fn json_parse(text: Seq<char>) -> Result<serde_json::Value, serde_json::Error>;

/// What `serde_json::Value::get` finds under a string key: the member of that
/// name where the value is an object that has one, nothing otherwise.
pub uninterp spec fn json_member(document: serde_json::Value, key: Seq<char>) -> Option<
    serde_json::Value,
>;

/// What `serde_json::Value::as_str` gives: the characters of a value that is a
/// string, nothing for any other value.
pub uninterp spec fn json_text(value: serde_json::Value) -> Option<Seq<char>>;

/// What `serde_json::Value::as_u64` gives: the number where the value is a
/// number that serde_json holds as an unsigned 64-bit integer, nothing for a
/// negative number, a number held as a float, or a value that is no number.
pub uninterp spec fn json_unsigned(value: serde_json::Value) -> Option<u64>;

/// Calls `serde_json::from_str` for a `serde_json::Value`. Claimed: the
/// outcome depends on the text alone, and is the one named `json_parse`.
#[verifier::external_body]
pub(crate) fn parse_document(text: &str) -> (parsed: Result<serde_json::Value, serde_json::Error>)
    ensures
        parsed == json_parse(text@),
{
    serde_json::from_str::<serde_json::Value>(text)
}

/// Calls `serde_json::Value::get` with a string key. Claimed: the outcome
/// depends on the document and the key alone, and is the one named
/// `json_member`.
#[verifier::external_body]
pub(crate) fn member<'a>(document: &'a serde_json::Value, key: &str) -> (found: Option<
    &'a serde_json::Value,
>)
    ensures
        match found {
            Some(value) => json_member(*document, key@) == Some(*value),
            None => json_member(*document, key@) is None,
        },
{
    document.get(key)
}

/// `serde_json::Value::as_str`. Claimed: the outcome depends on the value
/// alone, and is the one named `json_text`.
pub assume_specification<'a>[ serde_json::Value::as_str ](value: &'a serde_json::Value) -> (text:
    Option<&'a str>)
    ensures
        match text {
            Some(characters) => json_text(*value) == Some(characters@),
            None => json_text(*value) is None,
        },
;

/// `serde_json::Value::as_u64`. Claimed: the outcome depends on the value
/// alone, and is the one named `json_unsigned`.
pub assume_specification[ serde_json::Value::as_u64 ](value: &serde_json::Value) -> (number:
    Option<u64>)
    ensures
        number == json_unsigned(*value),
;

} // verus!
