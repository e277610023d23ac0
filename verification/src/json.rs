//! JSON documents, built and encoded by `serde_json`.
//!
//! Verus cannot look inside a `serde_json::Value`. This module gives such a
//! value a mathematical model, [`Json`], and states of each `serde_json`
//! function that the library calls what it does to that model. These
//! statements are believed, not proved; everything else in the library is
//! proved from them.

use vstd::prelude::*;

verus! {

/// The JSON values that the replies of this library are made of: `null`,
/// unsigned numbers, strings, arrays, and objects as mappings from member
/// name to member value.
pub enum Json {
    Null,
    Number(u64),
    Text(Seq<char>),
    Array(Seq<Json>),
    Object(Map<Seq<char>, Json>),
}

/// `serde_json::Value`, opaque to the verifier.
#[verifier::external_type_specification]
#[verifier::external_body]
pub struct ExValue(serde_json::Value);

/// `serde_json::Map`, opaque to the verifier.
#[verifier::external_type_specification]
#[verifier::external_body]
#[verifier::reject_recursive_types(K)]
#[verifier::reject_recursive_types(V)]
pub struct ExMap<K, V>(serde_json::Map<K, V>);

/// `serde_json::Error`, opaque to the verifier.
#[verifier::external_type_specification]
#[verifier::external_body]
pub struct ExError(serde_json::Error);

/// The JSON value that a `serde_json::Value` holds.
pub uninterp spec fn json_model(value: serde_json::Value) -> Json;

/// The members that a `serde_json::Map` holds, by key. In its default build
/// `serde_json` keeps the members of a map ordered by key, so a map is known
/// by its members alone.
pub uninterp spec fn object_model(object: serde_json::Map<String, serde_json::Value>) -> Map<
    Seq<char>,
    Json,
>;

/// The bytes that `serde_json::to_vec` writes for a value that holds `doc`,
/// or `None` where it reports an error.
pub uninterp spec fn json_encoding(doc: Json) -> Option<Seq<u8>>;

/// The JSON values that a list of `serde_json::Value`s holds, in the same
/// order.
pub open spec fn json_models(items: Seq<serde_json::Value>) -> Seq<Json> {
    items.map_values(|item: serde_json::Value| json_model(item))
}

/// `serde_json::Value::Null`: the value holds JSON `null`.
#[verifier::external_body]
pub(crate) fn json_null() -> (value: serde_json::Value)
    ensures
        json_model(value) == Json::Null,
{
    serde_json::Value::Null
}

/// `serde_json::Value::from` on a `u64`: the value holds that number.
#[verifier::external_body]
pub(crate) fn json_number(n: u64) -> (value: serde_json::Value)
    ensures
        json_model(value) == Json::Number(n),
{
    serde_json::Value::from(n)
}

/// `serde_json::Value::String`: the value holds the given text.
#[verifier::external_body]
pub(crate) fn json_text(text: &str) -> (value: serde_json::Value)
    ensures
        json_model(value) == Json::Text(text@),
{
    serde_json::Value::String(text.to_owned())
}

/// `serde_json::Value::Array`: the value holds the given items' values, in
/// the same order.
#[verifier::external_body]
pub(crate) fn json_array(items: Vec<serde_json::Value>) -> (value: serde_json::Value)
    ensures
        json_model(value) == Json::Array(json_models(items@)),
{
    serde_json::Value::Array(items)
}

/// `serde_json::Map::new`: the map has no member.
#[verifier::external_body]
pub(crate) fn object_new() -> (object: serde_json::Map<String, serde_json::Value>)
    ensures
        object_model(object) == (Map::<Seq<char>, Json>::empty()),
{
    serde_json::Map::new()
}

/// `serde_json::Map::insert`: afterwards the map holds `value` under `key`,
/// in place of an earlier member with that key if there was one; its other
/// members are unchanged.
#[verifier::external_body]
pub(crate) fn object_insert(
    object: &mut serde_json::Map<String, serde_json::Value>,
    key: &str,
    value: serde_json::Value,
)
    ensures
        object_model(*final(object)) == object_model(*old(object)).insert(key@, json_model(value)),
{
    object.insert(key.to_owned(), value);
}

/// `serde_json::Value::Object`: the value holds the members of the map.
#[verifier::external_body]
pub(crate) fn json_object(object: serde_json::Map<String, serde_json::Value>) -> (value:
    serde_json::Value)
    ensures
        json_model(value) == Json::Object(object_model(object)),
{
    serde_json::Value::Object(object)
}

/// `serde_json::to_vec`: the bytes written, or the error reported, depend on
/// nothing but the JSON value that `value` holds. Nothing is claimed of what
/// the bytes are, nor that there is no error.
#[verifier::external_body]
pub(crate) fn to_vec(value: &serde_json::Value) -> (result: Result<Vec<u8>, serde_json::Error>)
    ensures
        match result {
            Ok(bytes) => json_encoding(json_model(*value)) == Some(bytes@),
            Err(_) => json_encoding(json_model(*value)) is None,
        },
{
    serde_json::to_vec(value)
}

/// Encodes a document as JSON text. `None` where the encoder reports an
/// error.
pub fn encode(value: &serde_json::Value) -> (bytes: Option<Vec<u8>>)
    ensures
        bytes.is_some() == json_encoding(json_model(*value)).is_some(),
        bytes matches Some(b) ==> json_encoding(json_model(*value)) == Some(b@),
{
    match to_vec(value) {
        Ok(bytes) => Some(bytes),
        Err(_) => None,
    }
}

} // verus!
