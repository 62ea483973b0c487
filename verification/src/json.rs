//! JSON documents, as `serde_json` holds them, and what the library assumes of
//! that crate.
//!
//! Verus does not look inside `serde_json`. A value of that crate is opaque
//! here; what it stands for is the mathematical [`Json`] that [`json_of`]
//! names. Every function of this file that is marked `external_body` is
//! believed, not proved.

use vstd::prelude::*;

verus! {

/// A JSON value of `serde_json`, opaque to the verifier.
#[verifier::external_type_specification]
#[verifier::external_body]
pub struct ExJsonValue(serde_json::Value);

/// A JSON object of `serde_json`, opaque to the verifier.
#[verifier::external_type_specification]
#[verifier::external_body]
#[verifier::reject_recursive_types(K)]
#[verifier::reject_recursive_types(V)]
pub struct ExJsonObject<K, V>(serde_json::Map<K, V>);

/// An error of `serde_json`, opaque to the verifier.
#[verifier::external_type_specification]
#[verifier::external_body]
pub struct ExJsonError(serde_json::Error);

/// The mathematical content of a JSON value. A number is kept as its decimal
/// text; nothing in this library reads one.
pub enum Json {
    Null,
    Boolean(bool),
    Number(Seq<char>),
    Text(Seq<char>),
    Array(Seq<Json>),
    Object(Map<Seq<char>, Json>),
}

impl Json {
    /// The member of an object under `key`; `None` when the value is no object
    /// or has no such member.
    pub open spec fn member(self, key: Seq<char>) -> Option<Json> {
        match self {
            Json::Object(entries) => if entries.contains_key(key) {
                Some(entries[key])
            } else {
                None
            },
            _ => None,
        }
    }

    /// The text of a JSON string; `None` for every other kind of value.
    pub open spec fn text(self) -> Option<Seq<char>> {
        match self {
            Json::Text(text) => Some(text),
            _ => None,
        }
    }
}

/// The members of an object that has none.
pub open spec fn no_members() -> Map<Seq<char>, Json> {
    Map::empty()
}

/// What a `serde_json::Value` holds.
pub uninterp spec fn json_of(value: serde_json::Value) -> Json;

/// The members that a `serde_json::Map` holds, by key.
pub uninterp spec fn entries_of(object: serde_json::Map<String, serde_json::Value>) -> Map<Seq<char>, Json>;

/// What `serde_json::from_str` reads from a text as a `Value`; `None` where it
/// reports an error.
pub uninterp spec fn parsed_document(text: Seq<char>) -> Option<Json>;

/// What `serde_json::from_str` reads from a text as a `Map`; `None` where it
/// reports an error.
pub uninterp spec fn parsed_object(text: Seq<char>) -> Option<Map<Seq<char>, Json>>;

/// What `serde_json::to_string_pretty` prints for an object with the given
/// members; `None` where it reports an error.
pub uninterp spec fn pretty_text(entries: Map<Seq<char>, Json>) -> Option<Seq<char>>;

/// Calls `serde_json::from_str` for a `Value`. The contract only names the
/// outcome: it is `parsed_document` of the text.
#[verifier::external_body]
pub(crate) fn parse_document(text: &str) -> (outcome: Result<serde_json::Value, serde_json::Error>)
    ensures
        match outcome {
            Ok(value) => parsed_document(text@) == Some(json_of(value)),
            Err(_) => parsed_document(text@) is None,
        },
{
    serde_json::from_str::<serde_json::Value>(text)
}

/// Calls `serde_json::from_str` for a `Map`. The contract only names the
/// outcome: it is `parsed_object` of the text.
#[verifier::external_body]
pub(crate) fn parse_object(text: &str) -> (outcome: Result<
    serde_json::Map<String, serde_json::Value>,
    serde_json::Error,
>)
    ensures
        match outcome {
            Ok(object) => parsed_object(text@) == Some(entries_of(object)),
            Err(_) => parsed_object(text@) is None,
        },
{
    serde_json::from_str::<serde_json::Map<String, serde_json::Value>>(text)
}

/// Calls `serde_json::to_string_pretty` on a `Map`. The contract only names the
/// outcome: it is `pretty_text` of the members.
#[verifier::external_body]
pub(crate) fn print_object(object: &serde_json::Map<String, serde_json::Value>) -> (outcome: Result<
    String,
    serde_json::Error,
>)
    ensures
        match outcome {
            Ok(text) => pretty_text(entries_of(*object)) == Some(text@),
            Err(_) => pretty_text(entries_of(*object)) is None,
        },
{
    serde_json::to_string_pretty(object)
}

/// Calls `Map::insert`: the member under `key` becomes `value`, every other
/// member stays, and the member that was under `key` before is returned.
#[verifier::external_body]
pub(crate) fn object_insert(
    object: &mut serde_json::Map<String, serde_json::Value>,
    key: String,
    value: serde_json::Value,
) -> (previous: Option<serde_json::Value>)
    ensures
        entries_of(*final(object)) == entries_of(*old(object)).insert(key@, json_of(value)),
        match previous {
            Some(before) => entries_of(*old(object)).contains_key(key@) && entries_of(*old(object))[key@]
                == json_of(before),
            None => !entries_of(*old(object)).contains_key(key@),
        },
{
    object.insert(key, value)
}

/// Calls `Map::remove`: the member under `key` leaves, every other member
/// stays, and the member that left is returned.
#[verifier::external_body]
pub(crate) fn object_remove(object: &mut serde_json::Map<String, serde_json::Value>, key: &str) -> (removed: Option<
    serde_json::Value,
>)
    ensures
        entries_of(*final(object)) == entries_of(*old(object)).remove(key@),
        match removed {
            Some(before) => entries_of(*old(object)).contains_key(key@) && entries_of(*old(object))[key@]
                == json_of(before),
            None => !entries_of(*old(object)).contains_key(key@),
        },
{
    object.remove(key)
}

/// Calls `Value::get` with a string key: the member of an object under that
/// key, and `None` for a missing key or a value that is no object.
#[verifier::external_body]
pub(crate) fn value_member<'a>(value: &'a serde_json::Value, key: &str) -> (found: Option<&'a serde_json::Value>)
    ensures
        match found {
            Some(member) => json_of(*value).member(key@) == Some(json_of(*member)),
            None => json_of(*value).member(key@) is None,
        },
{
    value.get(key)
}

/// Calls `Value::as_str`: the text of a JSON string, and `None` for any other
/// kind of value.
#[verifier::external_body]
pub(crate) fn value_text<'a>(value: &'a serde_json::Value) -> (found: Option<&'a str>)
    ensures
        match found {
            Some(text) => json_of(*value).text() == Some(text@),
            None => json_of(*value).text() is None,
        },
{
    value.as_str()
}

/// Calls `Value::clone`: the copy holds what the value holds.
#[verifier::external_body]
pub(crate) fn value_clone(value: &serde_json::Value) -> (copy: serde_json::Value)
    ensures
        json_of(copy) == json_of(*value),
{
    value.clone()
}

/// Calls `Map::new`: an object without members.
#[verifier::external_body]
pub(crate) fn new_object() -> (object: serde_json::Map<String, serde_json::Value>)
    ensures
        entries_of(object) == no_members(),
{
    serde_json::Map::new()
}

/// Builds `Value::String`: the JSON string of the given text.
#[verifier::external_body]
pub(crate) fn text_value(text: String) -> (value: serde_json::Value)
    ensures
        json_of(value) == Json::Text(text@),
{
    serde_json::Value::String(text)
}

/// Builds `Value::Object`: the JSON object with the members of the map.
#[verifier::external_body]
pub(crate) fn object_value(object: serde_json::Map<String, serde_json::Value>) -> (value: serde_json::Value)
    ensures
        json_of(value) == Json::Object(entries_of(object)),
{
    serde_json::Value::Object(object)
}

/// Calls `to_string` on a `serde_json::Error`, which gives the text of its
/// `Display` form. Nothing is claimed of that text.
#[verifier::external_body]
pub(crate) fn error_text(error: &serde_json::Error) -> String {
    error.to_string()
}

} // verus!
