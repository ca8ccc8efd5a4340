//! JSON documents, as `serde_json` reads them and as contracts speak of them.
//!
//! A `serde_json::Value` is opaque to the verifier. [`Json`] is the document
//! that such a value stands for, and every item of this module that is
//! believed rather than proved says what one `serde_json` function returns in
//! terms of it.

use serde_json::Value;
use vstd::prelude::*;

verus! {

/// What `serde_json` reports of a number.
pub ghost struct JsonNumber {
    /// The number as `u64`: present for an integer from 0 to `u64::MAX`.
    pub unsigned: Option<u64>,
    /// The number as `i64`: present for an integer that fits one.
    pub signed: Option<i64>,
    /// The bits of the number as a double, integers converted: present
    /// where the number can be told as a double.
    pub double_bits: Option<u64>,
}

/// A JSON document.
pub ghost enum Json {
    Null,
    Bool(bool),
    Number(JsonNumber),
    String(Seq<char>),
    Array(Seq<Json>),
    Object(Map<Seq<char>, Json>),
}

/// `serde_json::Value`: one JSON document.
#[verifier::external_type_specification]
#[verifier::external_body]
pub struct ExValue(Value);

/// `serde_json::Map`: the members of a JSON object, by name.
#[verifier::external_type_specification]
#[verifier::external_body]
#[verifier::reject_recursive_types(K)]
#[verifier::reject_recursive_types(V)]
pub struct ExObject<K, V>(serde_json::Map<K, V>);

/// `serde_json::Error`: why a text is not JSON.
#[verifier::external_type_specification]
#[verifier::external_body]
pub struct ExJsonError(serde_json::Error);

/// The document that a value holds.
pub uninterp spec fn json_of(value: Value) -> Json;

/// The members that an object holds.
pub uninterp spec fn members_of(object: serde_json::Map<String, Value>) -> Map<Seq<char>, Json>;

/// The document that a text spells, or `None` where `serde_json` rejects the
/// text.
pub uninterp spec fn json_text(text: Seq<u8>) -> Option<Json>;

/// The documents that a vector of values holds, in order.
pub open spec fn items_of(values: Seq<Value>) -> Seq<Json> {
    values.map_values(|value: Value| json_of(value))
}

/// `serde_json::from_slice` at `Value`: reads the whole of `text` as one JSON
/// document. The same text always reads as the same document.
#[verifier::external_body]
pub(crate) fn from_slice(text: &[u8]) -> (parsed: Result<Value, serde_json::Error>)
    ensures
        match parsed {
            Ok(value) => json_text(text@) == Some(json_of(value)),
            Err(_) => json_text(text@) is None,
        },
{
    serde_json::from_slice::<Value>(text)
}

/// `Value::as_object`: the map of an object, `None` for any other value.
pub assume_specification[ Value::as_object ](value: &Value) -> (object: Option<
    &serde_json::Map<String, Value>,
>)
    ensures
        match object {
            Some(members) => json_of(*value) == Json::Object(members_of(*members)),
            None => !(json_of(*value) is Object),
        },
;

/// `Value::as_array`: the vector of an array, `None` for any other value.
pub assume_specification[ Value::as_array ](value: &Value) -> (array: Option<&Vec<Value>>)
    ensures
        match array {
            Some(items) => json_of(*value) == Json::Array(items_of(items@)),
            None => !(json_of(*value) is Array),
        },
;

/// `Value::as_str`: the text of a string, `None` for any other value.
pub assume_specification[ Value::as_str ](value: &Value) -> (text: Option<&str>)
    ensures
        match text {
            Some(s) => json_of(*value) == Json::String(s@),
            None => !(json_of(*value) is String),
        },
;

/// `Value::as_bool`: the truth value of a boolean, `None` for any other
/// value.
pub assume_specification[ Value::as_bool ](value: &Value) -> (truth: Option<bool>)
    ensures
        match truth {
            Some(b) => json_of(*value) == Json::Bool(b),
            None => !(json_of(*value) is Bool),
        },
;

/// `Value::as_i64`: a number that is an integer and fits `i64`, `None` for
/// any other number and any other value.
pub assume_specification[ Value::as_i64 ](value: &Value) -> (signed: Option<i64>)
    ensures
        signed == match json_of(*value) {
            Json::Number(number) => number.signed,
            _ => None,
        },
;

/// `Value::as_u64`: a number that is an integer from 0 to `u64::MAX`, `None`
/// for any other number and any other value.
pub assume_specification[ Value::as_u64 ](value: &Value) -> (unsigned: Option<u64>)
    ensures
        unsigned == match json_of(*value) {
            Json::Number(number) => number.unsigned,
            _ => None,
        },
;

/// `Value::as_f64`, by the bits of the double: a number that can be told as
/// a double, `None` for any other number and any other value.
#[verifier::external_body]
pub(crate) fn double_bits(value: &Value) -> (bits: Option<u64>)
    ensures
        bits == match json_of(*value) {
            Json::Number(number) => number.double_bits,
            _ => None,
        },
{
    match value.as_f64() {
        Some(double) => Some(double.to_bits()),
        None => None,
    }
}

/// `Map::get`: the member of that name, `None` where the object has none.
#[verifier::external_body]
pub(crate) fn member<'a>(object: &'a serde_json::Map<String, Value>, name: &str) -> (found: Option<
    &'a Value,
>)
    ensures
        match found {
            Some(value) => members_of(*object).contains_key(name@) && members_of(*object)[name@]
                == json_of(*value),
            None => !members_of(*object).contains_key(name@),
        },
{
    object.get(name)
}

/// `Map::clone`: an object with the same members.
#[verifier::external_body]
pub(crate) fn clone_object(object: &serde_json::Map<String, Value>) -> (copy: serde_json::Map<
    String,
    Value,
>)
    ensures
        members_of(copy) == members_of(*object),
{
    object.clone()
}

} // verus!
