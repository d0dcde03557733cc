//! JSON objects as far as claims need them: members that are texts and
//! members that are whole numbers.

use vstd::prelude::*;

verus! {

/// `serde_json::Map`: a JSON object. Read and written only through the
/// functions below.
#[verifier::external_type_specification]
#[verifier::external_body]
#[verifier::reject_recursive_types(K)]
#[verifier::reject_recursive_types(V)]
pub struct ExJsonMap<K, V>(serde_json::Map<K, V>);

/// `serde_json::Value`: a JSON value, as a member of an object.
#[verifier::external_type_specification]
#[verifier::external_body]
pub struct ExJsonValue(serde_json::Value);

/// A JSON object.
pub type JsonObject = serde_json::Map<String, serde_json::Value>;

/// The members of the object whose value is a string, by name.
pub uninterp spec fn json_texts(object: JsonObject) -> Map<Seq<char>, Seq<char>>;

/// The members of the object whose value is a number that reads as a `u64`,
/// by name.
pub uninterp spec fn json_numbers(object: JsonObject) -> Map<Seq<char>, u64>;

/// No text members.
pub open spec fn no_texts() -> Map<Seq<char>, Seq<char>> {
    Map::empty()
}

/// No number members.
pub open spec fn no_numbers() -> Map<Seq<char>, u64> {
    Map::empty()
}

/// `serde_json::Map::new`: an object without members.
#[verifier::external_body]
pub(crate) fn json_object() -> (object: JsonObject)
    ensures
        json_texts(object) == no_texts(),
        json_numbers(object) == no_numbers(),
{
    serde_json::Map::new()
}

/// `serde_json::Map::insert` of a string value: the member `name` is the text
/// afterwards, whatever it was before, and the other members are untouched.
#[verifier::external_body]
pub(crate) fn json_put_text(object: &mut JsonObject, name: &str, text: &str)
    ensures
        json_texts(*final(object)) == json_texts(*old(object)).insert(name@, text@),
        json_numbers(*final(object)) == json_numbers(*old(object)).remove(name@),
{
    object.insert(name.to_owned(), serde_json::Value::String(text.to_owned()));
}

/// `serde_json::Map::insert` of a number made from a `u64`: the member `name`
/// is the number afterwards, whatever it was before, and the other members
/// are untouched.
#[verifier::external_body]
pub(crate) fn json_put_number(object: &mut JsonObject, name: &str, number: u64)
    ensures
        json_numbers(*final(object)) == json_numbers(*old(object)).insert(name@, number),
        json_texts(*final(object)) == json_texts(*old(object)).remove(name@),
{
    object.insert(name.to_owned(), serde_json::Value::from(number));
}

/// `serde_json::Map::get` followed by `Value::as_str`: the member `name` if
/// it is there and a string.
#[verifier::external_body]
pub(crate) fn json_text(object: &JsonObject, name: &str) -> (r: Option<String>)
    ensures
        match r {
            Some(text) => json_texts(*object).contains_key(name@) && json_texts(*object)[name@]
                == text@,
            None => !json_texts(*object).contains_key(name@),
        },
{
    object.get(name).and_then(|value| value.as_str()).map(|text| text.to_owned())
}

/// `serde_json::Map::get` followed by `Value::as_u64`: the member `name` if
/// it is there and a number that reads as a `u64`.
#[verifier::external_body]
pub(crate) fn json_number(object: &JsonObject, name: &str) -> (r: Option<u64>)
    ensures
        match r {
            Some(number) => json_numbers(*object).contains_key(name@) && json_numbers(
                *object,
            )[name@] == number,
            None => !json_numbers(*object).contains_key(name@),
        },
{
    object.get(name).and_then(|value| value.as_u64())
}

} // verus!
