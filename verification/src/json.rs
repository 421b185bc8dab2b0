//! JSON documents: the mathematical model of a parsed document, the trusted
//! calls into `serde_json` that produce and inspect one, and verified readers
//! of object fields.

use crate::text::text_view;
use vstd::prelude::*;

verus! {

/// What a JSON value holds. A number is modelled by the unsigned 64-bit
/// integer that it denotes, where it denotes one.
pub enum Json {
    Null,
    Bool(bool),
    Number(Option<u64>),
    Text(Seq<char>),
    Array(Seq<Json>),
    Object(Map<Seq<char>, Json>),
}

/// Makes `serde_json::Value` known to the verifier as a type whose inside it
/// does not see.
#[verifier::external_type_specification]
#[verifier::external_body]
pub struct ExValue(serde_json::Value);

/// What a parsed value holds.
pub uninterp spec fn json_content(value: serde_json::Value) -> Json;

/// What `text` holds when read as one JSON document; `None` where the parser
/// does not take it, because it is no JSON document or nests deeper than the
/// parser goes.
pub uninterp spec fn json_document(text: Seq<char>) -> Option<Json>;

/// Parses `text` as one JSON document.
///
/// Trusted: `serde_json::from_str` at type `serde_json::Value`. Its result
/// depends on the text alone; the contract names it.
#[verifier::external_body]
pub(crate) fn from_str(text: &str) -> (value: Option<serde_json::Value>)
    ensures
        match value {
            Some(v) => json_document(text@) == Some(json_content(v)),
            None => json_document(text@) is None,
        },
{
    serde_json::from_str::<serde_json::Value>(text).ok()
}

/// The member `key` of an object.
///
/// Trusted: `serde_json::Value::get` with a string index. It returns the
/// member where the value is an object that has the key, and `None`
/// otherwise.
#[verifier::external_body]
pub(crate) fn get<'a>(value: &'a serde_json::Value, key: &str) -> (member: Option<
    &'a serde_json::Value,
>)
    ensures
        match member {
            Some(m) => has_member(json_content(*value), key@) && member_of(
                json_content(*value),
                key@,
            ) == json_content(*m),
            None => !has_member(json_content(*value), key@),
        },
{
    value.get(key)
}

/// The text of a string value.
///
/// Trusted: `serde_json::Value::as_str`. It returns the string where the
/// value is one, and `None` otherwise.
#[verifier::external_body]
pub(crate) fn as_str<'a>(value: &'a serde_json::Value) -> (text: Option<&'a str>)
    ensures
        match text {
            Some(s) => json_content(*value) == Json::Text(s@),
            None => !(json_content(*value) is Text),
        },
{
    value.as_str()
}

/// The elements of an array value.
///
/// Trusted: `serde_json::Value::as_array`. It returns the elements where the
/// value is an array, and `None` otherwise.
#[verifier::external_body]
pub(crate) fn as_array<'a>(value: &'a serde_json::Value) -> (elements: Option<
    &'a Vec<serde_json::Value>,
>)
    ensures
        match elements {
            Some(items) => json_content(*value) == Json::Array(contents(items@)),
            None => !(json_content(*value) is Array),
        },
{
    value.as_array()
}

/// The unsigned integer that a number value denotes.
///
/// Trusted: `serde_json::Value::as_u64`. It returns the integer where the
/// value is a non-negative integer that fits 64 bits, and `None` otherwise.
#[verifier::external_body]
pub(crate) fn as_u64(value: &serde_json::Value) -> (number: Option<u64>)
    ensures
        match number {
            Some(n) => json_content(*value) == Json::Number(Some(n)),
            None => !(json_content(*value) matches Json::Number(Some(_))),
        },
{
    value.as_u64()
}

/// Whether a value is `null`.
///
/// Trusted: `serde_json::Value::is_null`.
#[verifier::external_body]
pub(crate) fn is_null(value: &serde_json::Value) -> (null: bool)
    ensures
        null == (json_content(*value) is Null),
{
    value.is_null()
}

/// Whether a value is an object.
///
/// Trusted: `serde_json::Value::is_object`.
#[verifier::external_body]
pub(crate) fn is_object(value: &serde_json::Value) -> (object: bool)
    ensures
        object == (json_content(*value) is Object),
{
    value.is_object()
}

/// What each of `values` holds, in the same order.
pub open spec fn contents(values: Seq<serde_json::Value>) -> Seq<Json> {
    values.map_values(|v: serde_json::Value| json_content(v))
}

/// Whether `json` is an object with a member `key`.
pub open spec fn has_member(json: Json, key: Seq<char>) -> bool {
    json matches Json::Object(members) && members.contains_key(key)
}

/// The member `key` of the object `json`.
pub open spec fn member_of(json: Json, key: Seq<char>) -> Json
    recommends
        has_member(json, key),
{
    json->Object_0[key]
}

/// The member `key` of `json`, where it is an object that has one.
pub open spec fn member(json: Json, key: Seq<char>) -> Option<Json> {
    if has_member(json, key) {
        Some(member_of(json, key))
    } else {
        None
    }
}

/// A required string member: `Some` where `json` is an object whose member
/// `key` is a string.
pub open spec fn text_member(json: Json, key: Seq<char>) -> Option<Seq<char>> {
    match member(json, key) {
        Some(Json::Text(text)) => Some(text),
        _ => None,
    }
}

/// An optional string member. The outer `None` says that the member is there
/// but is neither a string nor `null`; a member that is absent or `null`
/// reads as `Some(None)`.
pub open spec fn optional_text_member(json: Json, key: Seq<char>) -> Option<Option<Seq<char>>> {
    match member(json, key) {
        None => Some(None),
        Some(Json::Null) => Some(None),
        Some(Json::Text(text)) => Some(Some(text)),
        Some(_) => None,
    }
}

/// A required unsigned integer member.
pub open spec fn unsigned_member(json: Json, key: Seq<char>) -> Option<u64> {
    match member(json, key) {
        Some(Json::Number(Some(n))) => Some(n),
        _ => None,
    }
}

/// A required array member: its elements.
pub open spec fn array_member(json: Json, key: Seq<char>) -> Option<Seq<Json>> {
    match member(json, key) {
        Some(Json::Array(elements)) => Some(elements),
        _ => None,
    }
}

/// A required object member.
pub open spec fn object_member(json: Json, key: Seq<char>) -> Option<Json> {
    match member(json, key) {
        Some(inner) => if inner is Object {
            Some(inner)
        } else {
            None
        },
        None => None,
    }
}

/// An optional object member. The outer `None` says that the member is there
/// but is neither an object nor `null`; a member that is absent or `null`
/// reads as `Some(None)`.
pub open spec fn optional_object_member(json: Json, key: Seq<char>) -> Option<Option<Json>> {
    match member(json, key) {
        None => Some(None),
        Some(Json::Null) => Some(None),
        Some(inner) => if inner is Object {
            Some(Some(inner))
        } else {
            None
        },
    }
}

/// Reads the required string member `key` of `value`.
pub fn text_field(value: &serde_json::Value, key: &str) -> (text: Option<String>)
    ensures
        text_view(text) == text_member(json_content(*value), key@),
{
    match get(value, key) {
        None => None,
        Some(inner) => match as_str(inner) {
            None => None,
            Some(s) => Some(s.to_owned()),
        },
    }
}

/// Reads the optional string member `key` of `value`.
pub fn optional_text_field(value: &serde_json::Value, key: &str) -> (text: Option<Option<String>>)
    ensures
        match text {
            Some(found) => optional_text_member(json_content(*value), key@) == Some(
                text_view(found),
            ),
            None => optional_text_member(json_content(*value), key@) is None,
        },
{
    match get(value, key) {
        None => Some(None),
        Some(inner) => {
            if is_null(inner) {
                Some(None)
            } else {
                match as_str(inner) {
                    None => None,
                    Some(s) => Some(Some(s.to_owned())),
                }
            }
        },
    }
}

/// Reads the required unsigned integer member `key` of `value`.
pub fn unsigned_field(value: &serde_json::Value, key: &str) -> (number: Option<u64>)
    ensures
        number == unsigned_member(json_content(*value), key@),
{
    match get(value, key) {
        None => None,
        Some(inner) => as_u64(inner),
    }
}

/// Reads the required array member `key` of `value`.
pub fn array_field<'a>(value: &'a serde_json::Value, key: &str) -> (elements: Option<
    &'a Vec<serde_json::Value>,
>)
    ensures
        match elements {
            Some(items) => array_member(json_content(*value), key@) == Some(contents(items@)),
            None => array_member(json_content(*value), key@) is None,
        },
{
    match get(value, key) {
        None => None,
        Some(inner) => as_array(inner),
    }
}

/// Reads the required object member `key` of `value`.
pub fn object_field<'a>(value: &'a serde_json::Value, key: &str) -> (object: Option<
    &'a serde_json::Value,
>)
    ensures
        match object {
            Some(inner) => object_member(json_content(*value), key@) == Some(json_content(*inner)),
            None => object_member(json_content(*value), key@) is None,
        },
{
    match get(value, key) {
        None => None,
        Some(inner) => if is_object(inner) {
            Some(inner)
        } else {
            None
        },
    }
}

/// Reads the optional object member `key` of `value`.
pub fn optional_object_field<'a>(value: &'a serde_json::Value, key: &str) -> (object: Option<
    Option<&'a serde_json::Value>,
>)
    ensures
        match object {
            Some(Some(inner)) => optional_object_member(json_content(*value), key@) == Some(
                Some(json_content(*inner)),
            ),
            Some(None) => optional_object_member(json_content(*value), key@) == Some(
                None::<Json>,
            ),
            None => optional_object_member(json_content(*value), key@) is None,
        },
{
    match get(value, key) {
        None => Some(None),
        Some(inner) => {
            if is_null(inner) {
                Some(None)
            } else if is_object(inner) {
                Some(Some(inner))
            } else {
                None
            }
        },
    }
}

} // verus!
