//! JSON values, as far as the bridge reads them: the members of an object,
//! the elements of an array, the text of a string.

use vstd::prelude::*;
use serde_json::Value;

verus! {

/// `serde_json::Value`. The verifier does not look inside it: what a value
/// holds is known only through `json_of` and the three functions that are
/// taken on trust below.
#[verifier::external_type_specification]
#[verifier::external_body]
pub struct ExValue(serde_json::Value);

/// What a JSON value holds. Of a number it tells no more than that it is one.
pub enum Json {
    Null,
    Bool(bool),
    Number,
    Text(Seq<char>),
    Array(Seq<Json>),
    Object(Map<Seq<char>, Json>),
}

/// What a `serde_json::Value` holds: null, a boolean, a number, the text of a
/// string, the elements of an array in order, or the members of an object by
/// their names.
pub uninterp spec fn json_of(value: serde_json::Value) -> Json;

/// The member `key` of an object; `Null` where there is none, and where
/// `json` is no object.
pub open spec fn member_of(json: Json, key: Seq<char>) -> Json {
    match json {
        Json::Object(members) => if members.contains_key(key) {
            members[key]
        } else {
            Json::Null
        },
        _ => Json::Null,
    }
}

/// The text of a string; none where `json` is no string.
pub open spec fn text_of(json: Json) -> Option<Seq<char>> {
    match json {
        Json::Text(text) => Some(text),
        _ => None,
    }
}

/// The index operator of `serde_json::Value` with a text as the index. Taken
/// on trust from its documentation: it gives the member of that name where
/// the value is an object that has one, and a null value in every other
/// case, and it never fails.
#[verifier::external_body]
pub(crate) fn member<'a>(value: &'a Value, key: &str) -> (found: &'a Value)
    ensures
        json_of(*found) == member_of(json_of(*value), key@),
{
    &value[key]
}

/// `serde_json::Value::as_array`. Taken on trust from its documentation: it
/// gives the elements, in order, where the value is an array, and nothing
/// where it is anything else.
#[verifier::external_body]
pub(crate) fn elements(value: &Value) -> (found: Option<&Vec<Value>>)
    ensures
        match found {
            Some(items) => {
                &&& json_of(*value) matches Json::Array(held)
                &&& held.len() == items@.len()
                &&& forall|i: int|
                    0 <= i < items@.len() ==> json_of(#[trigger] items@[i]) == held[i]
            },
            None => !(json_of(*value) is Array),
        },
{
    value.as_array()
}

/// `serde_json::Value::as_str`. Taken on trust from its documentation: it
/// gives the text where the value is a string, and nothing where it is
/// anything else.
#[verifier::external_body]
pub(crate) fn text(value: &Value) -> (found: Option<&str>)
    ensures
        match found {
            Some(held) => json_of(*value) == Json::Text(held@),
            None => !(json_of(*value) is Text),
        },
{
    value.as_str()
}

/// The text of the member `key` of a value, where it has one that is a
/// string.
pub fn member_text(value: &Value, key: &str) -> (found: Option<String>)
    ensures
        found.deep_view() == text_of(member_of(json_of(*value), key@)),
{
    match text(member(value, key)) {
        Some(held) => Some(held.to_owned()),
        None => None,
    }
}

} // verus!
