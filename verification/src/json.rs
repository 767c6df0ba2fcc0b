//! JSON documents, as `serde_json` holds them.
//!
//! A `serde_json::Value` is opaque here. `json_model` names what it holds, and the functions
//! of this module say in terms of that name what `serde_json` hands out.

use vstd::prelude::*;

verus! {

/// `serde_json::Value`: a document. What it holds is named by `json_model`.
#[verifier::external_type_specification]
#[verifier::external_body]
pub struct ExJsonValue(serde_json::Value);

/// `serde_json::Error`: why a text is no document. Nothing is read from it.
#[verifier::external_type_specification]
#[verifier::external_body]
pub struct ExJsonError(serde_json::Error);

/// A JSON document as a mathematical value. Of a number only its being one is kept.
pub ghost enum Json {
    Null,
    Bool(bool),
    Number,
    Text(Seq<char>),
    List(Seq<Json>),
    Record(Map<Seq<char>, Json>),
}

/// What a `serde_json::Value` holds.
pub uninterp spec fn json_model(value: serde_json::Value) -> Json;

/// The document that `serde_json` reads from `text`; `None` where it reads none.
pub uninterp spec fn json_parse(text: Seq<char>) -> Option<Json>;

/// The member of `doc` under `key`: `None` where `doc` is no record or has no such member.
pub open spec fn member(doc: Json, key: Seq<char>) -> Option<Json> {
    match doc {
        Json::Record(fields) => if fields.contains_key(key) {
            Some(fields[key])
        } else {
            None
        },
        _ => None,
    }
}

/// The text that `doc` is: `None` where it is no text.
pub open spec fn as_text(doc: Json) -> Option<Seq<char>> {
    match doc {
        Json::Text(text) => Some(text),
        _ => None,
    }
}

/// The items of the list that `doc` is: `None` where it is no list.
pub open spec fn as_list(doc: Json) -> Option<Seq<Json>> {
    match doc {
        Json::List(items) => Some(items),
        _ => None,
    }
}

/// The text under `key` in `doc`: `None` where there is no such member or it is no text.
pub open spec fn text_member(doc: Json, key: Seq<char>) -> Option<Seq<char>> {
    match member(doc, key) {
        Some(inner) => as_text(inner),
        None => None,
    }
}

/// The documents that a list of values holds.
pub open spec fn models(values: Seq<serde_json::Value>) -> Seq<Json> {
    Seq::new(values.len(), |i: int| json_model(values[i]))
}

/// `serde_json::from_str` for a `Value`: the document that `text` is, or the error with which
/// it is refused.
#[verifier::external_body]
pub(crate) fn parse_value(text: &str) -> (r: Result<serde_json::Value, serde_json::Error>)
    ensures
        match r {
            Ok(value) => json_parse(text@) == Some(json_model(value)),
            Err(_) => json_parse(text@) is None,
        },
{
    serde_json::from_str::<serde_json::Value>(text)
}

/// `serde_json::Value::get` with a text as index: the member under `key` of a value that is
/// an object and has one, `None` of any other value.
#[verifier::external_body]
pub(crate) fn value_member<'a>(value: &'a serde_json::Value, key: &str) -> (r: Option<&'a serde_json::Value>)
    ensures
        match r {
            Some(inner) => member(json_model(*value), key@) == Some(json_model(*inner)),
            None => member(json_model(*value), key@) is None,
        },
{
    value.get(key)
}

/// `serde_json::Value::as_str`: the text of a value that is a string, `None` of any other.
#[verifier::external_body]
pub(crate) fn value_text<'a>(value: &'a serde_json::Value) -> (r: Option<&'a str>)
    ensures
        match r {
            Some(text) => as_text(json_model(*value)) == Some(text@),
            None => as_text(json_model(*value)) is None,
        },
{
    value.as_str()
}

/// `serde_json::Value::as_array`: the items of a value that is an array, in order, `None` of
/// any other.
#[verifier::external_body]
pub(crate) fn value_items<'a>(value: &'a serde_json::Value) -> (r: Option<&'a Vec<serde_json::Value>>)
    ensures
        match r {
            Some(items) => as_list(json_model(*value)) == Some(models(items@)),
            None => as_list(json_model(*value)) is None,
        },
{
    value.as_array()
}

/// The text under `key` in `value`.
pub(crate) fn get_text<'a>(value: &'a serde_json::Value, key: &str) -> (r: Option<&'a str>)
    ensures
        match r {
            Some(text) => text_member(json_model(*value), key@) == Some(text@),
            None => text_member(json_model(*value), key@) is None,
        },
{
    match value_member(value, key) {
        Some(inner) => value_text(inner),
        None => None,
    }
}

} // verus!
