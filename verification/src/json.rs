//! JSON objects, kept as the `serde_json` collection that goes on the wire.
//!
//! The mathematical side, [`Json`], is this crate's own. The executable side
//! is `serde_json`: nothing about it is proved here. This file declares its
//! two types, names what an object holds and states, for each call that the
//! crate makes into it, what the call does to that.

use vstd::prelude::*;

verus! {

/// A JSON value, as far as the protocol uses JSON: the only numbers are
/// integers.
pub enum Json {
    Null,
    Bool(bool),
    Number(int),
    Text(Seq<char>),
    Array(Seq<Json>),
    Object(Map<Seq<char>, Json>),
}

/// An optional text as JSON: the text, or `null`.
pub open spec fn optional_text_json(text: Option<Seq<char>>) -> Json {
    match text {
        Some(s) => Json::Text(s),
        None => Json::Null,
    }
}

/// Bytes as JSON: the array of their numbers.
pub open spec fn bytes_json(bytes: Seq<u8>) -> Json {
    Json::Array(bytes.map_values(|b: u8| Json::Number(b as int)))
}

/// Objects as JSON: the array of them.
pub open spec fn objects_json(objects: Seq<Map<Seq<char>, Json>>) -> Json {
    Json::Array(objects.map_values(|o: Map<Seq<char>, Json>| Json::Object(o)))
}

/// The characters of an optional text.
pub open spec fn optional_text(text: Option<String>) -> Option<Seq<char>> {
    match text {
        Some(s) => Some(s@),
        None => None,
    }
}

/// `serde_json::Value`, which only passes through.
#[verifier::external_type_specification]
#[verifier::external_body]
pub struct ExJsonValue(serde_json::Value);

/// `serde_json::Map`, the JSON object of `serde_json`.
#[verifier::external_type_specification]
#[verifier::external_body]
#[verifier::reject_recursive_types(K)]
#[verifier::reject_recursive_types(V)]
pub struct ExJsonObject<K, V>(serde_json::Map<K, V>);

/// A JSON object of `serde_json`.
pub type JsonObject = serde_json::Map<String, serde_json::Value>;

/// What a JSON object holds: under each of its keys, the value that stands
/// there. Nothing is said of a value with a number that is no integer.
pub uninterp spec fn entries(object: serde_json::Map<String, serde_json::Value>) -> Map<
    Seq<char>,
    Json,
>;

/// No entry at all.
pub open spec fn no_entries() -> Map<Seq<char>, Json> {
    Map::empty()
}

/// The entries of each object of a list.
pub open spec fn entries_of_each(objects: Seq<JsonObject>) -> Seq<Map<Seq<char>, Json>> {
    objects.map_values(|o: JsonObject| entries(o))
}

/// `serde_json::Map::new`: the new object has no entry.
#[verifier::external_body]
pub(crate) fn object_new() -> (object: JsonObject)
    ensures
        entries(object) == no_entries(),
{
    serde_json::Map::new()
}

/// `serde_json::Map::insert` of a text, which `Value::from` makes a JSON
/// string: the entry under `key` now is that string, whatever stood there
/// before, and every other entry stays.
#[verifier::external_body]
pub(crate) fn put_text(object: &mut JsonObject, key: &str, text: String)
    ensures
        entries(*final(object)) == entries(*old(object)).insert(key@, Json::Text(text@)),
{
    object.insert(key.to_string(), serde_json::Value::from(text));
}

/// `serde_json::Map::insert` of an optional text, which `Value::from` makes
/// a JSON string, or `null` where there is no text.
#[verifier::external_body]
pub(crate) fn put_optional_text(object: &mut JsonObject, key: &str, text: Option<String>)
    ensures
        entries(*final(object)) == entries(*old(object)).insert(
            key@,
            optional_text_json(optional_text(text)),
        ),
{
    object.insert(key.to_string(), serde_json::Value::from(text));
}

/// `serde_json::Map::insert` of a boolean, which `Value::from` makes `true`
/// or `false`.
#[verifier::external_body]
pub(crate) fn put_bool(object: &mut JsonObject, key: &str, flag: bool)
    ensures
        entries(*final(object)) == entries(*old(object)).insert(key@, Json::Bool(flag)),
{
    object.insert(key.to_string(), serde_json::Value::from(flag));
}

/// `serde_json::Map::insert` of bytes, which `Value::from` makes the array
/// of their numbers.
#[verifier::external_body]
pub(crate) fn put_bytes(object: &mut JsonObject, key: &str, bytes: &[u8])
    ensures
        entries(*final(object)) == entries(*old(object)).insert(key@, bytes_json(bytes@)),
{
    object.insert(key.to_string(), serde_json::Value::from(bytes));
}

/// `serde_json::Map::insert` of an object, which `Value::from` makes a value
/// with the same entries.
#[verifier::external_body]
pub(crate) fn put_object(object: &mut JsonObject, key: &str, child: JsonObject)
    ensures
        entries(*final(object)) == entries(*old(object)).insert(
            key@,
            Json::Object(entries(child)),
        ),
{
    object.insert(key.to_string(), serde_json::Value::from(child));
}

/// `serde_json::Map::insert` of a list of objects, which `Value::from` makes
/// the array of them, in their order.
#[verifier::external_body]
pub(crate) fn put_objects(object: &mut JsonObject, key: &str, children: Vec<JsonObject>)
    ensures
        entries(*final(object)) == entries(*old(object)).insert(
            key@,
            objects_json(entries_of_each(children@)),
        ),
{
    object.insert(key.to_string(), serde_json::Value::from(children));
}

} // verus!
