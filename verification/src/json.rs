//! JSON values as they appear in metadata. The values are `serde_json`'s;
//! this module states what the library reads of one.

use vstd::prelude::*;

verus! {

/// `serde_json::Value`, carried through as it is.
#[verifier::external_type_specification]
#[verifier::external_body]
pub struct ExValue(serde_json::Value);

/// The compact JSON text of `value`; `None` where it has none.
pub uninterp spec fn json_text_of(value: serde_json::Value) -> Option<Seq<char>>;

/// The value that a JSON text stands for; `None` where the text is not
/// JSON.
pub uninterp spec fn parsed_json(text: Seq<char>) -> Option<serde_json::Value>;

/// The characters of `value` where it is a JSON string, else `None`.
pub uninterp spec fn string_text(value: serde_json::Value) -> Option<Seq<char>>;

/// `value` as an unsigned integer, where it is an integer in that range.
pub uninterp spec fn unsigned_value(value: serde_json::Value) -> Option<u64>;

/// `value` as a signed integer, where it is an integer in that range.
pub uninterp spec fn integer_value(value: serde_json::Value) -> Option<i64>;

/// Bytes of the compact JSON text of `value`; `None` where it has none.
pub open spec fn encoded_len(value: serde_json::Value) -> Option<usize> {
    match json_text_of(value) {
        Some(text) => Some(vstd::utf8::encode_utf8(text).len() as usize),
        None => None,
    }
}

/// Whether an optional string holds the optional characters `text`.
pub open spec fn holds_text(found: Option<String>, text: Option<Seq<char>>) -> bool {
    match (found, text) {
        (Some(s), Some(t)) => s@ == t,
        (None, None) => true,
        _ => false,
    }
}

/// `serde_json::to_string`: the compact JSON text of the value, or `None`
/// where it fails. The text depends on the value alone.
#[verifier::external_body]
pub(crate) fn json_text(value: &serde_json::Value) -> (text: Option<String>)
    ensures
        holds_text(text, json_text_of(*value)),
{
    match serde_json::to_string(value) {
        Ok(text) => Some(text),
        Err(_) => None,
    }
}

/// `serde_json::from_str`: the value that the text stands for, or `None`
/// where the text is not JSON. The value depends on the text alone.
#[verifier::external_body]
pub(crate) fn json_parse(text: &str) -> (value: Option<serde_json::Value>)
    ensures
        value == parsed_json(text@),
{
    match serde_json::from_str::<serde_json::Value>(text) {
        Ok(value) => Some(value),
        Err(_) => None,
    }
}

/// `serde_json::Value::as_str`: the content of a JSON string, `None` for
/// every other kind of value.
#[verifier::external_body]
pub(crate) fn json_string_text(value: &serde_json::Value) -> (found: Option<String>)
    ensures
        holds_text(found, string_text(*value)),
{
    match value.as_str() {
        Some(text) => Some(text.to_string()),
        None => None,
    }
}

/// `serde_json::Value::as_u64`: the number where the value is an integer
/// that fits, `None` otherwise.
#[verifier::external_body]
pub(crate) fn json_unsigned(value: &serde_json::Value) -> (number: Option<u64>)
    ensures
        number == unsigned_value(*value),
{
    value.as_u64()
}

/// `serde_json::Value::as_i64`: the number where the value is an integer
/// that fits, `None` otherwise.
#[verifier::external_body]
pub(crate) fn json_integer(value: &serde_json::Value) -> (number: Option<i64>)
    ensures
        number == integer_value(*value),
{
    value.as_i64()
}

/// `serde_json::Value::String`: the JSON string of a text.
#[verifier::external_body]
pub(crate) fn json_string(text: String) -> (value: serde_json::Value)
    ensures
        string_text(value) == Some(text@),
{
    serde_json::Value::String(text)
}

/// `Clone::clone` of `serde_json::Value`: an equal value.
pub assume_specification[ <serde_json::Value as Clone>::clone ](value: &serde_json::Value) -> (copy:
    serde_json::Value)
    ensures
        copy == *value,
;

} // verus!
