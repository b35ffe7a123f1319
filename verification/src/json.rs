//! JSON values, read through `serde_json`. A value is opaque here: what it
//! holds is named by `json_of`, and every accessor says what it returns in
//! terms of that name.

use vstd::prelude::*;

verus! {

/// What a JSON value holds.
pub enum Json {
    Null,
    Bool(bool),
    /// A number, with the integer it stands for where that is an integer from
    /// 0 to 2^64 - 1.
    Number(Option<u64>),
    Text(Seq<char>),
    Array(Seq<Json>),
    Object(Map<Seq<char>, Json>),
}

/// `serde_json::Value`, carried through as it is: nothing of its fields is
/// known here.
#[verifier::external_type_specification]
#[verifier::external_body]
pub struct ExValue(serde_json::Value);

/// What `value` holds: the JSON value that its accessors show. A number is
/// told by what `Value::as_u64` gives for it, a string by its characters, an
/// array by its elements in order, and an object by its members.
pub uninterp spec fn json_of(value: serde_json::Value) -> Json;

/// What `serde_json::from_str` makes of `text`: the JSON document that it
/// holds, or `None` where the parser rejects it.
pub uninterp spec fn parsed_json(text: Seq<char>) -> Option<Json>;

/// What the values of `items` hold, one by one.
pub open spec fn json_items(items: Seq<serde_json::Value>) -> Seq<Json> {
    Seq::new(items.len(), |i: int| json_of(items[i]))
}

/// `serde_json::from_str` at type `Value`: the document that `text` holds,
/// or `None` where the parser rejects it. Not proved: the contract names the
/// parser's result, which depends on `text` alone.
#[verifier::external_body]
pub(crate) fn parse(text: &str) -> (value: Option<serde_json::Value>)
    ensures
        match value {
            Some(v) => parsed_json(text@) == Some(json_of(v)),
            None => parsed_json(text@) is None,
        },
{
    serde_json::from_str::<serde_json::Value>(text).ok()
}

/// `Value::get` with a string index: the member `key` of an object, or `None`
/// where `value` is no object or has no such member. Not proved.
#[verifier::external_body]
pub(crate) fn member<'a>(value: &'a serde_json::Value, key: &str) -> (found: Option<
    &'a serde_json::Value,
>)
    ensures
        match found {
            Some(v) => json_of(*value) is Object && json_of(*value)->Object_0.contains_key(key@)
                && json_of(*v) == json_of(*value)->Object_0[key@],
            None => !(json_of(*value) is Object && json_of(*value)->Object_0.contains_key(key@)),
        },
{
    value.get(key)
}

/// `Value::as_u64`: the integer that a number stands for, or `None` where
/// `value` is no number or the number is negative, fractional or too large.
/// Not proved.
#[verifier::external_body]
pub(crate) fn as_u64(value: &serde_json::Value) -> (n: Option<u64>)
    ensures
        n == match json_of(*value) {
            Json::Number(integer) => integer,
            _ => None,
        },
{
    value.as_u64()
}

/// `Value::as_array`: the elements of an array, or `None` where `value` is no
/// array. Not proved.
#[verifier::external_body]
pub(crate) fn as_array(value: &serde_json::Value) -> (items: Option<&Vec<serde_json::Value>>)
    ensures
        match items {
            Some(elements) => json_of(*value) == Json::Array(json_items(elements@)),
            None => !(json_of(*value) is Array),
        },
{
    value.as_array()
}

/// `Value::as_str`: the characters of a string, or `None` where `value` is no
/// string. Not proved.
#[verifier::external_body]
pub(crate) fn as_str(value: &serde_json::Value) -> (text: Option<&str>)
    ensures
        match text {
            Some(s) => json_of(*value) == Json::Text(s@),
            None => !(json_of(*value) is Text),
        },
{
    value.as_str()
}

} // verus!
