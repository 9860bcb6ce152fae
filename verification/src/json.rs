//! JSON documents held as `serde_json` values, and what they say.
//!
//! The values themselves are opaque to the verifier. Their content is the
//! mathematical document [`Json`]; the functions at the end of this file are
//! the only places where `serde_json` is called, and each states its effect
//! on that content without proof.

use vstd::prelude::*;

verus! {

#[verifier::external_type_specification]
#[verifier::external_body]
pub struct ExJsonValue(serde_json::Value);

#[verifier::external_type_specification]
#[verifier::external_body]
#[verifier::reject_recursive_types(K)]
#[verifier::reject_recursive_types(V)]
pub struct ExJsonMap<K, V>(serde_json::Map<K, V>);

/// A JSON document as a mathematical value. The members of an object are
/// unordered and their keys unique.
pub enum Json {
    Null,
    Boolean(bool),
    /// A number, by its literal text.
    Number(Seq<char>),
    Text(Seq<char>),
    Array(Seq<Json>),
    Object(Map<Seq<char>, Json>),
}

/// The document that a `serde_json::Value` holds.
pub uninterp spec fn json_of(value: serde_json::Value) -> Json;

/// The members that a `serde_json::Map` holds, each by its key.
pub uninterp spec fn members_of(object: serde_json::Map<String, serde_json::Value>) -> Map<
    Seq<char>,
    Json,
>;

/// No members at all.
pub open spec fn no_members() -> Map<Seq<char>, Json> {
    Map::empty()
}

/// The object without members, `{}`.
pub open spec fn empty_object() -> Json {
    Json::Object(no_members())
}

/// The object with the one member `key: value`.
pub open spec fn single_member_object(key: Seq<char>, value: Json) -> Json {
    Json::Object(no_members().insert(key, value))
}

/// `serde_json::Map::new`: makes a map that holds no member.
#[verifier::external_body]
pub(crate) fn map_new() -> (object: serde_json::Map<String, serde_json::Value>)
    ensures
        members_of(object) == no_members(),
{
    serde_json::Map::new()
}

/// `serde_json::Map::contains_key`: whether the map holds a member under
/// `key`.
#[verifier::external_body]
pub(crate) fn map_contains_key(
    object: &serde_json::Map<String, serde_json::Value>,
    key: &str,
) -> (found: bool)
    ensures
        found == members_of(*object).contains_key(key@),
{
    object.contains_key(key)
}

/// `serde_json::Map::insert`: puts `value` under `key`, replacing the member
/// that was there, and hands that member back; every other member stays.
#[verifier::external_body]
pub(crate) fn map_insert(
    object: &mut serde_json::Map<String, serde_json::Value>,
    key: String,
    value: serde_json::Value,
) -> (previous: Option<serde_json::Value>)
    ensures
        members_of(*final(object)) == members_of(*old(object)).insert(key@, json_of(value)),
        previous is Some <==> members_of(*old(object)).contains_key(key@),
        previous matches Some(member) ==> json_of(member) == members_of(*old(object))[key@],
{
    object.insert(key, value)
}

/// The variant `serde_json::Value::Object`: the object whose members are
/// those of the map.
#[verifier::external_body]
pub(crate) fn value_from_map(object: serde_json::Map<String, serde_json::Value>) -> (value:
    serde_json::Value)
    ensures
        json_of(value) == Json::Object(members_of(object)),
{
    serde_json::Value::Object(object)
}

/// The variant `serde_json::Value::String`: the JSON string with the
/// characters of `text`.
#[verifier::external_body]
pub(crate) fn value_from_string(text: String) -> (value: serde_json::Value)
    ensures
        json_of(value) == Json::Text(text@),
{
    serde_json::Value::String(text)
}

/// Takes a `serde_json::Value` apart by its variant: the map of an
/// `Object`, or the value itself where it is of another variant.
#[verifier::external_body]
pub(crate) fn value_into_map(value: serde_json::Value) -> (parts: Result<
    serde_json::Map<String, serde_json::Value>,
    serde_json::Value,
>)
    ensures
        match parts {
            Ok(object) => json_of(value) == Json::Object(members_of(object)),
            Err(other) => other == value && !(json_of(value) is Object),
        },
{
    match value {
        serde_json::Value::Object(object) => Ok(object),
        other => Err(other),
    }
}

} // verus!
