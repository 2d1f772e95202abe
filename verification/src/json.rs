//! The boundary to `serde_json`.
//!
//! A document is carried as a `serde_json::Value`, which the verifier cannot
//! look into. Contracts speak of what a document holds: a tree of the six
//! kinds of JSON value. The calls into `serde_json` are trusted to do to that
//! tree what their source shows; the parser and the printer are trusted to be
//! functions of their input.

use vstd::prelude::*;
use serde_json::Value;

verus! {

#[verifier::external_type_specification]
#[verifier::external_body]
pub struct ExValue(serde_json::Value);

/// A number of a document, in the three forms in which `serde_json` holds
/// one.
pub enum JsonNumber {
    /// A whole number that is not negative.
    PosInt(u64),
    /// A whole number below zero.
    NegInt(i64),
    /// Any other finite number, by the bit pattern of its double-precision
    /// form.
    Float(u64),
}

/// What a document holds.
pub enum Json {
    Null,
    Bool(bool),
    Number(JsonNumber),
    Text(Seq<char>),
    List(Seq<Json>),
    Object(Map<Seq<char>, Json>),
}

/// What a `serde_json::Value` holds.
pub uninterp spec fn json_of(value: Value) -> Json;

/// What `serde_json::from_str` reads from a text: the document, or `None`
/// where it reports an error.
pub uninterp spec fn json_parsed(text: Seq<char>) -> Option<Json>;

/// The compact JSON text that `Value::to_string` writes for a document.
pub uninterp spec fn json_written(doc: Json) -> Seq<char>;

/// What each of a list of values holds, in order.
pub open spec fn jsons(values: Seq<Value>) -> Seq<Json> {
    values.map_values(|v: Value| json_of(v))
}

/// What an optional value holds.
pub open spec fn option_json(value: Option<Value>) -> Option<Json> {
    match value {
        Some(v) => Some(json_of(v)),
        None => None,
    }
}

/// What an optional borrowed value holds.
pub open spec fn borrowed_json(value: Option<&Value>) -> Option<Json> {
    match value {
        Some(v) => Some(json_of(*v)),
        None => None,
    }
}

/// The view of an optional borrowed text.
pub open spec fn str_model(text: Option<&str>) -> Option<Seq<char>> {
    match text {
        Some(t) => Some(t@),
        None => None,
    }
}

/// The member of an object under a key. Anything but an object has no
/// members.
pub open spec fn lookup(doc: Json, key: Seq<char>) -> Option<Json> {
    match doc {
        Json::Object(members) => if members.dom().contains(key) {
            Some(members[key])
        } else {
            None
        },
        _ => None,
    }
}

/// The text of a document that is a text.
pub open spec fn as_text(doc: Json) -> Option<Seq<char>> {
    match doc {
        Json::Text(t) => Some(t),
        _ => None,
    }
}

/// The value of a document that is a whole number within 64 signed bits.
pub open spec fn as_integer(doc: Json) -> Option<i64> {
    match doc {
        Json::Number(JsonNumber::PosInt(n)) => if n <= i64::MAX {
            Some(n as i64)
        } else {
            None
        },
        Json::Number(JsonNumber::NegInt(n)) => Some(n),
        _ => None,
    }
}

/// The value of a document that is a truth value.
pub open spec fn as_flag(doc: Json) -> Option<bool> {
    match doc {
        Json::Bool(b) => Some(b),
        _ => None,
    }
}

/// The entries of a document that is a list.
pub open spec fn as_items(doc: Json) -> Option<Seq<Json>> {
    match doc {
        Json::List(items) => Some(items),
        _ => None,
    }
}

/// `Clone::clone` of `serde_json::Value`: the copy is the same document.
pub assume_specification[ <serde_json::Value as Clone>::clone ](value: &Value) -> (r: Value)
    ensures
        r == *value,
;

/// Calls `serde_json::from_str::<Value>`; trusted to be a function of the
/// text alone, with an error mapped to `None`.
#[verifier::external_body]
pub(crate) fn parse(text: &str) -> (r: Option<Value>)
    ensures
        option_json(r) == json_parsed(text@),
{
    serde_json::from_str::<Value>(text).ok()
}

/// Calls `Value::get` with a string key: the member of an object under the
/// key, and nothing for a missing key or a document that is no object.
#[verifier::external_body]
pub(crate) fn member<'a>(value: &'a Value, key: &str) -> (r: Option<&'a Value>)
    ensures
        borrowed_json(r) == lookup(json_of(*value), key@),
{
    value.get(key)
}

/// Calls `Value::as_str`: the text of a document that is a text.
#[verifier::external_body]
pub(crate) fn text_of<'a>(value: &'a Value) -> (r: Option<&'a str>)
    ensures
        str_model(r) == as_text(json_of(*value)),
{
    value.as_str()
}

/// Calls `Value::as_i64`: the value of a whole number that fits.
#[verifier::external_body]
pub(crate) fn integer_of(value: &Value) -> (r: Option<i64>)
    ensures
        r == as_integer(json_of(*value)),
{
    value.as_i64()
}

/// Calls `Value::as_bool`: the value of a truth value.
#[verifier::external_body]
pub(crate) fn flag_of(value: &Value) -> (r: Option<bool>)
    ensures
        r == as_flag(json_of(*value)),
{
    value.as_bool()
}

/// Calls `Value::as_array`: the entries of a list.
#[verifier::external_body]
pub(crate) fn items_of<'a>(value: &'a Value) -> (r: Option<&'a Vec<Value>>)
    ensures
        match r {
            Some(items) => as_items(json_of(*value)) == Some(jsons(items@)),
            None => as_items(json_of(*value)) is None,
        },
{
    value.as_array()
}

/// Calls `Value::from` on a text: the document is that text.
#[verifier::external_body]
pub(crate) fn text_value(text: &str) -> (r: Value)
    ensures
        json_of(r) == Json::Text(text@),
{
    Value::from(text)
}

/// Fills a new `serde_json::Map` by two calls of `Map::insert` and wraps it
/// as an object: the object holds the two members under their keys, the
/// second in place of the first where the keys are the same.
#[verifier::external_body]
pub(crate) fn object_of_two(
    first_key: &str,
    first: Value,
    second_key: &str,
    second: Value,
) -> (r: Value)
    ensures
        json_of(r) == Json::Object(
            Map::<Seq<char>, Json>::empty().insert(first_key@, json_of(first)).insert(
                second_key@,
                json_of(second),
            ),
        ),
{
    let mut members = serde_json::Map::new();
    members.insert(first_key.to_owned(), first);
    members.insert(second_key.to_owned(), second);
    Value::Object(members)
}

/// Calls `Value::to_string`; trusted to be a function of what the document
/// holds.
#[verifier::external_body]
pub(crate) fn written(value: &Value) -> (r: String)
    ensures
        r@ == json_written(json_of(*value)),
{
    value.to_string()
}

/// The text under a key, where the document has one there.
pub open spec fn member_text(doc: Json, key: Seq<char>) -> Option<Seq<char>> {
    match lookup(doc, key) {
        Some(member) => as_text(member),
        None => None,
    }
}

/// The whole number under a key, where the document has one there.
pub open spec fn member_integer(doc: Json, key: Seq<char>) -> Option<i64> {
    match lookup(doc, key) {
        Some(member) => as_integer(member),
        None => None,
    }
}

/// The truth value under a key, where the document has one there.
pub open spec fn member_flag(doc: Json, key: Seq<char>) -> Option<bool> {
    match lookup(doc, key) {
        Some(member) => as_flag(member),
        None => None,
    }
}

/// The list under a key, where the document has one there.
pub open spec fn member_items(doc: Json, key: Seq<char>) -> Option<Seq<Json>> {
    match lookup(doc, key) {
        Some(member) => as_items(member),
        None => None,
    }
}

/// Reads the text under a key.
pub fn get_text<'a>(value: &'a Value, key: &str) -> (r: Option<&'a str>)
    ensures
        str_model(r) == member_text(json_of(*value), key@),
{
    match member(value, key) {
        Some(v) => text_of(v),
        None => None,
    }
}

/// Reads the whole number under a key.
pub fn get_integer(value: &Value, key: &str) -> (r: Option<i64>)
    ensures
        r == member_integer(json_of(*value), key@),
{
    match member(value, key) {
        Some(v) => integer_of(v),
        None => None,
    }
}

/// Reads the truth value under a key.
pub fn get_flag(value: &Value, key: &str) -> (r: Option<bool>)
    ensures
        r == member_flag(json_of(*value), key@),
{
    match member(value, key) {
        Some(v) => flag_of(v),
        None => None,
    }
}

/// Reads the list under a key.
pub fn get_items<'a>(value: &'a Value, key: &str) -> (r: Option<&'a Vec<Value>>)
    ensures
        match r {
            Some(items) => member_items(json_of(*value), key@) == Some(jsons(items@)),
            None => member_items(json_of(*value), key@) is None,
        },
{
    match member(value, key) {
        Some(v) => items_of(v),
        None => None,
    }
}

/// Copies the member under a key.
pub fn get_member(value: &Value, key: &str) -> (r: Option<Value>)
    ensures
        option_json(r) == lookup(json_of(*value), key@),
{
    match member(value, key) {
        Some(v) => Some(v.clone()),
        None => None,
    }
}

} // verus!
