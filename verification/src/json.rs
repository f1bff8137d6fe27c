//! The boundary to `serde_json`: a mathematical model of a JSON document and
//! the contracts under which the parser and the accessors of
//! `serde_json::Value` are used. Nothing in this file is proved; every item
//! says what it takes on trust.

use vstd::prelude::*;

verus! {

/// What a JSON document holds, as far as this library reads it. A number is
/// kept as the unsigned 64-bit integer it denotes, if it denotes one.
pub enum Json {
    Null,
    Bool(bool),
    Number(Option<u64>),
    Text(Seq<char>),
    Array(Seq<Json>),
    Object(Map<Seq<char>, Json>),
}

/// `serde_json::Value`, a parsed JSON document. Verified code reads it only
/// through the accessors below.
#[verifier::external_type_specification]
#[verifier::external_body]
pub struct ExValue(serde_json::Value);

/// The document that a `serde_json::Value` holds.
pub uninterp spec fn json_of(value: serde_json::Value) -> Json;

/// The document that `serde_json::from_str` reads from `text`, or `None` where
/// it reports an error.
pub uninterp spec fn parsed_json(text: Seq<char>) -> Option<Json>;

/// The documents held by the values of a vector, in order.
pub open spec fn jsons_of(values: Seq<serde_json::Value>) -> Seq<Json> {
    Seq::new(values.len(), |i: int| json_of(values[i]))
}

/// `serde_json::from_str::<Value>`: parses `text` as one JSON document. The
/// result depends on the text alone; a text that is not one well-formed
/// document gives `None`.
#[verifier::external_body]
pub(crate) fn parse_value(text: &str) -> (value: Option<serde_json::Value>)
    ensures
        match value {
            Some(v) => parsed_json(text@) == Some(json_of(v)),
            None => parsed_json(text@) is None,
        },
{
    serde_json::from_str::<serde_json::Value>(text).ok()
}

/// `Value::get` with a string key: the member of that name when the value is
/// an object that has one, `None` otherwise.
#[verifier::external_body]
pub(crate) fn member<'a>(value: &'a serde_json::Value, key: &str) -> (found: Option<
    &'a serde_json::Value,
>)
    ensures
        match found {
            Some(m) => json_of(*value) matches Json::Object(members) && members.contains_key(
                key@,
            ) && members[key@] == json_of(*m),
            None => !(json_of(*value) matches Json::Object(members) && members.contains_key(
                key@,
            )),
        },
{
    value.get(key)
}

/// `Value::as_str`: the text of a string value, `None` for any other value.
pub assume_specification<'a>[ serde_json::Value::as_str ](value: &'a serde_json::Value) -> (text:
    Option<&'a str>)
    ensures
        match text {
            Some(s) => json_of(*value) == Json::Text(s@),
            None => !(json_of(*value) is Text),
        },
;

/// `Value::as_bool`: the truth value of a boolean, `None` for any other value.
pub assume_specification[ serde_json::Value::as_bool ](value: &serde_json::Value) -> (b: Option<
    bool,
>)
    ensures
        match b {
            Some(x) => json_of(*value) == Json::Bool(x),
            None => !(json_of(*value) is Bool),
        },
;

/// `Value::as_u64`: the integer of a number that is a non-negative integer
/// below 2^64, `None` for any other number and any other value.
pub assume_specification[ serde_json::Value::as_u64 ](value: &serde_json::Value) -> (n: Option<u64>)
    ensures
        n == match json_of(*value) {
            Json::Number(x) => x,
            _ => None,
        },
;

/// `Value::as_array`: the elements of an array, `None` for any other value.
pub assume_specification<'a>[ serde_json::Value::as_array ](value: &'a serde_json::Value) -> (items:
    Option<&'a Vec<serde_json::Value>>)
    ensures
        match items {
            Some(a) => json_of(*value) == Json::Array(jsons_of(a@)),
            None => !(json_of(*value) is Array),
        },
;

/// `Value::is_null`: whether the value is `null`.
pub assume_specification[ serde_json::Value::is_null ](value: &serde_json::Value) -> (b: bool)
    ensures
        b == (json_of(*value) is Null),
;

/// `Value::is_object`: whether the value is an object.
pub assume_specification[ serde_json::Value::is_object ](value: &serde_json::Value) -> (b: bool)
    ensures
        b == (json_of(*value) is Object),
;

/// The JSON string literal that `serde_json::to_string` writes for `text`:
/// the text between double quotes, with the characters escaped that JSON
/// does not allow in a string.
pub uninterp spec fn json_quoted(text: Seq<char>) -> Seq<char>;

/// `serde_json::to_string` on a string: the JSON string literal for `text`.
/// The result depends on the text alone. Writing a string never fails.
#[verifier::external_body]
pub(crate) fn json_quote(text: &str) -> (quoted: String)
    ensures
        quoted@ == json_quoted(text@),
{
    serde_json::to_string(text).unwrap_or_default()
}

} // verus!
