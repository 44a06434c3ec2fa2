//! JSON values, as `serde_json` holds them.

use serde_json::Value;
use vstd::prelude::*;

verus! {

/// What a JSON value holds.
///
/// A number is an integer, or a floating-point number given by its bits.
pub enum Json {
    Null,
    Bool(bool),
    Integer(int),
    Float(u64),
    Text(Seq<char>),
    Array(Seq<Json>),
    Object(Map<Seq<char>, Json>),
}

/// `serde_json::Value`. The library carries such values and never looks inside them.
#[verifier::external_type_specification]
#[verifier::external_body]
pub struct ExValue(Value);

/// What `value` holds.
pub uninterp spec fn json_of(value: Value) -> Json;

/// The compact JSON text that `serde_json` writes for a value that holds `json`.
///
/// What a value holds decides the text only as long as `serde_json` is built without its features
/// `preserve_order`, by which the order of an object's members would count, and
/// `arbitrary_precision`, by which the way a number was written would.
pub uninterp spec fn json_text(json: Json) -> Seq<char>;

/// An optional integer as JSON: the integer, or `null`.
pub open spec fn optional_integer(value: Option<u64>) -> Json {
    match value {
        Some(value) => Json::Integer(value as int),
        None => Json::Null,
    }
}

/// `serde_json::to_value` on an `i64`, claimed to give that integer.
#[verifier::external_body]
pub(crate) fn json_i64(value: i64) -> (json: Value)
    ensures
        json_of(json) == Json::Integer(value as int),
{
    serde_json::to_value(value).unwrap()
}

/// `serde_json::to_value` on a `u64`, claimed to give that integer.
#[verifier::external_body]
pub(crate) fn json_u64(value: u64) -> (json: Value)
    ensures
        json_of(json) == Json::Integer(value as int),
{
    serde_json::to_value(value).unwrap()
}

/// `serde_json::to_value` on a `u128`, claimed to give that integer. An integer beyond `u64` is
/// an error there, on which `unwrap` would panic, so it is left out.
#[verifier::external_body]
pub(crate) fn json_u128(value: u128) -> (json: Value)
    requires
        value <= u64::MAX,
    ensures
        json_of(json) == Json::Integer(value as int),
{
    serde_json::to_value(value).unwrap()
}

/// `serde_json::to_value` on an `Option<u64>`, claimed to give the integer, or `null` for `None`.
#[verifier::external_body]
pub(crate) fn json_optional_u64(value: Option<u64>) -> (json: Value)
    ensures
        json_of(json) == optional_integer(value),
{
    serde_json::to_value(value).unwrap()
}

/// `serde_json::to_value` on a `bool`, claimed to give that truth value.
#[verifier::external_body]
pub(crate) fn json_bool(value: bool) -> (json: Value)
    ensures
        json_of(json) == Json::Bool(value),
{
    serde_json::to_value(value).unwrap()
}

/// `serde_json::to_value` on a string slice, claimed to give a JSON string of that text.
#[verifier::external_body]
pub(crate) fn json_str(value: &str) -> (json: Value)
    ensures
        json_of(json) == Json::Text(value@),
{
    serde_json::to_value(value).unwrap()
}

/// The `Display` of `serde_json::Value`: compact JSON text, claimed to depend on nothing but what
/// the value holds, which is so without the features `preserve_order` and `arbitrary_precision` of
/// `serde_json`. For a JSON string the text has its quotes and escapes.
#[verifier::external_body]
pub(crate) fn json_to_string(value: &Value) -> (text: String)
    ensures
        text@ == json_text(json_of(*value)),
{
    value.to_string()
}

/// The `Clone` of `serde_json::Value`, claimed to give a value that holds the same.
pub assume_specification[ <Value as Clone>::clone ](value: &Value) -> (copy: Value)
    ensures
        json_of(copy) == json_of(*value),
;

} // verus!
