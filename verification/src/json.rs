//! JSON values, as `serde_json` holds them.

use serde_json::Value;
use vstd::prelude::*;

verus! {

/// What a JSON value holds.
pub enum Json {
    Null,
    Bool(bool),
    /// A number held as an integer.
    Integer(int),
    /// A number held as a float, by the text that it prints as.
    Decimal(Seq<char>),
    String(Seq<char>),
    Array(Seq<Json>),
    Object(Map<Seq<char>, Json>),
}

/// `serde_json::Value`: one JSON value.
#[verifier::external_type_specification]
#[verifier::external_body]
pub struct ExValue(serde_json::Value);

/// `serde_json::Map`: the members of a JSON object, by name.
#[verifier::external_type_specification]
#[verifier::external_body]
#[verifier::reject_recursive_types(K)]
#[verifier::reject_recursive_types(V)]
pub struct ExMembers<K, V>(serde_json::Map<K, V>);

/// What `value` holds.
pub uninterp spec fn json_of(value: Value) -> Json;

/// What the members of an object hold, by name.
pub uninterp spec fn members_of(members: serde_json::Map<String, Value>) -> Map<Seq<char>, Json>;

/// What a list of texts holds as a JSON array of strings.
pub open spec fn strings_json(texts: Seq<String>) -> Json {
    Json::Array(texts.map_values(|text: String| Json::String(text@)))
}

/// A list of texts holds one JSON string for each text, in the same order, and
/// nothing else.
pub proof fn strings_json_keeps_every_text(texts: Seq<String>)
    ensures
        strings_json(texts) is Array,
        strings_json(texts)->Array_0.len() == texts.len(),
        forall|i: int|
            0 <= i < texts.len() ==> #[trigger] strings_json(texts)->Array_0[i] == Json::String(
                texts[i]@,
            ),
{
}

/// `serde_json::Value::from` for `&str`: the JSON string of the same text.
#[verifier::external_body]
pub(crate) fn string_value(text: &str) -> (value: Value)
    ensures
        json_of(value) == Json::String(text@),
{
    Value::from(text)
}

/// `serde_json::Value::from` for `u32`: the JSON number of the same value.
#[verifier::external_body]
pub(crate) fn number_value(number: u32) -> (value: Value)
    ensures
        json_of(value) == Json::Integer(number as int),
{
    Value::from(number)
}

/// `serde_json::Value::from` for a slice of `String`: the JSON array of the JSON
/// strings of the same texts, in the same order.
#[verifier::external_body]
pub(crate) fn strings_value(texts: &[String]) -> (value: Value)
    ensures
        json_of(value) == strings_json(texts@),
{
    Value::from(texts)
}

/// `serde_json::Value::from` for the members of an object: the JSON object that
/// has exactly these members.
#[verifier::external_body]
pub(crate) fn object_value(members: serde_json::Map<String, Value>) -> (value: Value)
    ensures
        json_of(value) == Json::Object(members_of(members)),
{
    Value::from(members)
}

/// `serde_json::Map::new`: no members.
#[verifier::external_body]
pub(crate) fn no_members() -> (members: serde_json::Map<String, Value>)
    ensures
        (members_of(members) == Map::<Seq<char>, Json>::empty()),
{
    serde_json::Map::new()
}

/// `serde_json::Map::insert`: the member `name` becomes `value`, every other
/// member stays, and the value that `name` had before, if any, is returned.
#[verifier::external_body]
pub(crate) fn set_member(
    members: &mut serde_json::Map<String, Value>,
    name: &str,
    value: Value,
) -> (previous: Option<Value>)
    ensures
        members_of(*final(members)) == members_of(*old(members)).insert(name@, json_of(value)),
        match previous {
            Some(before) => members_of(*old(members)).contains_key(name@) && json_of(before)
                == members_of(*old(members))[name@],
            None => !members_of(*old(members)).contains_key(name@),
        },
{
    members.insert(name.to_owned(), value)
}

} // verus!
