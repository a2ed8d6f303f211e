//! JSON documents, read with `serde_json`. The library looks at a document
//! through a handful of questions (is this an object with that member, a
//! text, a natural number, a list), each answered by `serde_json`; what the
//! answers say is stated over a mathematical model of the document.

use serde_json::Value;
use vstd::prelude::*;

verus! {

/// A JSON value as the library reads it. A number counts as natural where it
/// is an integer from 0 to `u64::MAX`; `null`, booleans and all other numbers
/// are told apart from the rest only.
pub ghost enum Json {
    Natural(u64),
    Text(Seq<char>),
    List(Seq<Json>),
    Object(Map<Seq<char>, Json>),
    Other,
}

/// `serde_json::Value`, a JSON value. It is looked at through the functions
/// below only.
#[verifier::external_type_specification]
#[verifier::external_body]
pub struct ExValue(Value);

/// `serde_json::Error`, the error of reading a document. What is inside is
/// not looked at.
#[verifier::external_type_specification]
#[verifier::external_body]
pub struct ExJsonFault(serde_json::Error);

/// What a `serde_json::Value` holds.
pub uninterp spec fn json_value(value: Value) -> Json;

/// The JSON document that `text` is, none where `serde_json` cannot read it.
pub uninterp spec fn json_of(text: Seq<char>) -> Option<Json>;

/// The member `key` of an object; none for a value that is no object or has
/// no such member.
pub open spec fn member(json: Json, key: Seq<char>) -> Option<Json> {
    match json {
        Json::Object(fields) => if fields.dom().contains(key) {
            Some(fields[key])
        } else {
            None
        },
        _ => None,
    }
}

/// The text of a value; none for a value that is no text.
pub open spec fn text_of(json: Json) -> Option<Seq<char>> {
    match json {
        Json::Text(text) => Some(text),
        _ => None,
    }
}

/// The text of the member `key`; none where there is no such member or it is
/// no text.
pub open spec fn member_text(json: Json, key: Seq<char>) -> Option<Seq<char>> {
    match member(json, key) {
        Some(value) => text_of(value),
        None => None,
    }
}

/// The text of the member `key`, empty where there is no such text.
pub open spec fn member_text_or_empty(json: Json, key: Seq<char>) -> Seq<char> {
    match member_text(json, key) {
        Some(text) => text,
        None => Seq::<char>::empty(),
    }
}

/// What the values of a list hold.
pub open spec fn values_view(values: Seq<Value>) -> Seq<Json> {
    values.map_values(|v: Value| json_value(v))
}

/// `serde_json::from_str` for a `Value`: the document that `text` is, or an
/// error where it is none.
#[verifier::external_body]
pub(crate) fn parse(text: &str) -> (res: Result<Value, serde_json::Error>)
    ensures
        match res {
            Ok(value) => json_of(text@) == Some(json_value(value)),
            Err(_) => json_of(text@) is None,
        },
{
    serde_json::from_str::<Value>(text)
}

/// `Value::get` with a string index: the member of that name, where the
/// value is an object and has one.
#[verifier::external_body]
pub(crate) fn get<'a>(value: &'a Value, key: &str) -> (res: Option<&'a Value>)
    ensures
        match res {
            Some(found) => member(json_value(*value), key@) == Some(json_value(*found)),
            None => member(json_value(*value), key@) is None,
        },
{
    value.get(key)
}

/// `Value::as_str`: the text of a value that is a string.
#[verifier::external_body]
pub(crate) fn as_text<'a>(value: &'a Value) -> (res: Option<&'a str>)
    ensures
        match res {
            Some(text) => json_value(*value) == Json::Text(text@),
            None => !(json_value(*value) is Text),
        },
{
    value.as_str()
}

/// `Value::as_u64`: the number of a value that is an integer from 0 to
/// `u64::MAX`.
#[verifier::external_body]
pub(crate) fn as_natural(value: &Value) -> (res: Option<u64>)
    ensures
        match res {
            Some(n) => json_value(*value) == Json::Natural(n),
            None => !(json_value(*value) is Natural),
        },
{
    value.as_u64()
}

/// `Value::as_array`: the items of a value that is an array.
#[verifier::external_body]
pub(crate) fn as_list<'a>(value: &'a Value) -> (res: Option<&'a Vec<Value>>)
    ensures
        match res {
            Some(items) => json_value(*value) == Json::List(values_view(items@)),
            None => !(json_value(*value) is List),
        },
{
    value.as_array()
}

/// `Value::is_object`: whether a value is an object.
#[verifier::external_body]
pub(crate) fn is_object(value: &Value) -> (res: bool)
    ensures
        res == (json_value(*value) is Object),
{
    value.is_object()
}

/// The text of the member `key` of `value`.
pub fn text_member<'a>(value: &'a Value, key: &str) -> (res: Option<&'a str>)
    ensures
        match res {
            Some(text) => member_text(json_value(*value), key@) == Some(text@),
            None => member_text(json_value(*value), key@) is None,
        },
{
    match get(value, key) {
        Some(found) => as_text(found),
        None => None,
    }
}

/// The text of the member `key` of `value`, empty where there is none.
pub fn text_member_or_empty(value: &Value, key: &str) -> (text: String)
    ensures
        text@ == member_text_or_empty(json_value(*value), key@),
{
    match text_member(value, key) {
        Some(text) => text.to_owned(),
        None => String::new(),
    }
}

} // verus!
