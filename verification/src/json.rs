//! JSON documents of the upstream, read through `serde_json`.
//!
//! A document is carried as an opaque `serde_json::Value`. `json_model`
//! names what it holds, and every function here states over that model
//! what it returns.

use vstd::prelude::*;
use vstd::string::*;

verus! {

/// A JSON document, as a mathematical value. Numbers are not told apart:
/// nothing reads them.
pub enum JsonModel {
    Null,
    Bool(bool),
    Number,
    Text(Seq<char>),
    Array(Seq<JsonModel>),
    Object(Map<Seq<char>, JsonModel>),
}

/// `serde_json::Value`, carried through as an opaque value.
#[verifier::external_type_specification]
#[verifier::external_body]
pub struct ExValue(serde_json::Value);

/// What a `serde_json::Value` holds.
pub uninterp spec fn json_model(v: serde_json::Value) -> JsonModel;

/// The document that `serde_json::from_str` reads from a text; `None`
/// where it reports an error.
pub uninterp spec fn json_of(text: Seq<char>) -> Option<JsonModel>;

/// The member `key` of an object; `null` where `j` is no object or has no
/// such member.
pub open spec fn member(j: JsonModel, key: Seq<char>) -> JsonModel {
    match j {
        JsonModel::Object(members) => if members.dom().contains(key) {
            members[key]
        } else {
            JsonModel::Null
        },
        _ => JsonModel::Null,
    }
}

/// The text of a JSON string; the empty text for every other value.
pub open spec fn text_of(j: JsonModel) -> Seq<char> {
    match j {
        JsonModel::Text(s) => s,
        _ => Seq::empty(),
    }
}

/// What each of a sequence of values holds.
pub open spec fn json_models(items: Seq<serde_json::Value>) -> Seq<JsonModel> {
    Seq::new(items.len(), |i: int| json_model(items[i]))
}

/// `serde_json::from_str::<serde_json::Value>`: the document that the text
/// holds, or `None` where the text is no JSON document. Trusted: what the
/// result holds is a function of the text alone, and `json_of` is its name.
#[verifier::external_body]
pub(crate) fn parse_value(text: &str) -> (r: Option<serde_json::Value>)
    ensures
        match r {
            Some(v) => json_of(text@) == Some(json_model(v)),
            None => json_of(text@) is None,
        },
{
    serde_json::from_str(text).ok()
}

/// `Value`'s `Index<&str>`: the member `key` of an object, and `null`
/// where the value is no object or has no such member. Trusted.
#[verifier::external_body]
pub(crate) fn value_member<'a>(v: &'a serde_json::Value, key: &str) -> (r: &'a serde_json::Value)
    ensures
        json_model(*r) == member(json_model(*v), key@),
{
    &v[key]
}

/// `Value::is_null`: whether the value is `null`. Trusted.
#[verifier::external_body]
pub(crate) fn value_is_null(v: &serde_json::Value) -> (r: bool)
    ensures
        r == (json_model(*v) is Null),
{
    v.is_null()
}

/// `Value::as_str`, copied into a `String`: the text of a string, and
/// `None` for every other value. Trusted.
#[verifier::external_body]
pub(crate) fn value_string(v: &serde_json::Value) -> (r: Option<String>)
    ensures
        match r {
            Some(s) => json_model(*v) == JsonModel::Text(s@),
            None => !(json_model(*v) is Text),
        },
{
    v.as_str().map(str::to_owned)
}

/// `Value::as_array`: the elements of an array, and `None` for every
/// other value. Trusted.
#[verifier::external_body]
pub(crate) fn value_items<'a>(v: &'a serde_json::Value) -> (r: Option<&'a Vec<serde_json::Value>>)
    ensures
        match r {
            Some(items) => json_model(*v) == JsonModel::Array(json_models(items@)),
            None => !(json_model(*v) is Array),
        },
{
    v.as_array()
}

/// The text of a value; empty where it is no string.
pub fn text_in(v: &serde_json::Value) -> (r: String)
    ensures
        r@ == text_of(json_model(*v)),
{
    match value_string(v) {
        Some(s) => s,
        None => String::new(),
    }
}

/// The text of the member `key`; empty where it is no string.
pub fn text_at(v: &serde_json::Value, key: &str) -> (r: String)
    ensures
        r@ == text_of(member(json_model(*v), key@)),
{
    text_in(value_member(v, key))
}

} // verus!
