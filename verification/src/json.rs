//! JSON payloads. The values are built, written and read by `serde_json`;
//! what this module states of it is believed, not proved.
//!
//! A JSON value is known here by its compact text, an object by the texts
//! of its members.

use crate::text::int_text;
use vstd::prelude::*;

verus! {

/// `serde_json::Value`, a JSON value. It is carried through; what it holds
/// is known only by the names below.
#[verifier::external_type_specification]
#[verifier::external_body]
pub struct ExValue(serde_json::Value);

/// `serde_json::Map`, the members of a JSON object, which it keeps in the
/// order of their keys.
#[verifier::external_type_specification]
#[verifier::external_body]
#[verifier::reject_recursive_types(K)]
#[verifier::reject_recursive_types(V)]
pub struct ExMap<K, V>(serde_json::Map<K, V>);

/// `serde_json::Error`, why a text could not be read.
#[verifier::external_type_specification]
#[verifier::external_body]
pub struct ExError(serde_json::Error);

/// A JSON object under construction.
pub type JsonObject = serde_json::Map<String, serde_json::Value>;

/// The compact JSON text of a value: what `serde_json::to_string` writes
/// for it.
pub uninterp spec fn value_text(value: serde_json::Value) -> Seq<char>;

/// The members of an object: each key with the compact JSON text of its
/// value.
pub uninterp spec fn members(object: serde_json::Map<String, serde_json::Value>) -> Map<
    Seq<char>,
    Seq<char>,
>;

/// The compact JSON text of the object that has the given members, each
/// key standing with the text of its value: what `serde_json::to_string`
/// writes for such an object.
pub uninterp spec fn object_text(members: Map<Seq<char>, Seq<char>>) -> Seq<char>;

/// The JSON text of a string: the string between quotes, escaped where JSON
/// asks for it.
pub uninterp spec fn string_text(s: Seq<char>) -> Seq<char>;

/// The list of strings that a JSON text denotes, where it denotes one.
pub uninterp spec fn names_of_text(text: Seq<char>) -> Option<Seq<Seq<char>>>;

/// An object without members.
pub open spec fn no_members() -> Map<Seq<char>, Seq<char>> {
    Map::empty()
}

/// The compact JSON text of the object that holds one member.
pub open spec fn single(key: Seq<char>, value: Seq<char>) -> Seq<char> {
    object_text(no_members().insert(key, value))
}

/// The JSON text of a boolean.
pub open spec fn bool_text(b: bool) -> Seq<char> {
    if b {
        seq!['t', 'r', 'u', 'e']
    } else {
        seq!['f', 'a', 'l', 's', 'e']
    }
}

/// An empty object, by `serde_json::Map::new`.
#[verifier::external_body]
pub(crate) fn new_object() -> (object: JsonObject)
    ensures
        members(object) == no_members(),
{
    serde_json::Map::new()
}

/// Sets the member `key` of `object` to `value`, by
/// `serde_json::Map::insert`: a member of that key is replaced, every other
/// member stays.
#[verifier::external_body]
pub(crate) fn insert_member(object: &mut JsonObject, key: &str, value: serde_json::Value)
    ensures
        members(*final(object)) == members(*old(object)).insert(key@, value_text(value)),
{
    object.insert(key.to_owned(), value);
}

/// The JSON boolean `b`, by `serde_json::Value::from`; it is written as
/// `true` or `false`.
#[verifier::external_body]
pub(crate) fn bool_value(b: bool) -> (value: serde_json::Value)
    ensures
        value_text(value) == bool_text(b),
{
    serde_json::Value::from(b)
}

/// The JSON number `n`, by `serde_json::Value::from`; an integer is written
/// in decimal.
#[verifier::external_body]
pub(crate) fn number_value(n: isize) -> (value: serde_json::Value)
    ensures
        value_text(value) == int_text(n as int),
{
    serde_json::Value::from(n)
}

/// The JSON string `s`, by `serde_json::Value::from`.
#[verifier::external_body]
pub(crate) fn string_value(s: &str) -> (value: serde_json::Value)
    ensures
        value_text(value) == string_text(s@),
{
    serde_json::Value::from(s)
}

/// The JSON value that is a copy of `object`, by
/// `serde_json::Value::Object`.
#[verifier::external_body]
pub(crate) fn object_value(object: &JsonObject) -> (value: serde_json::Value)
    ensures
        value_text(value) == object_text(members(*object)),
{
    serde_json::Value::Object(object.clone())
}

/// The compact JSON text of `object`, by `serde_json::to_string`. Writing
/// an object whose keys are strings into a string does not fail.
#[verifier::external_body]
pub(crate) fn object_to_string(object: &JsonObject) -> (text: String)
    ensures
        text@ == object_text(members(*object)),
{
    serde_json::to_string(object).unwrap()
}

/// Reads `text` as a JSON list of strings, by `serde_json::from_str`.
#[verifier::external_body]
pub(crate) fn parse_names(text: &str) -> (parsed: Result<Vec<String>, serde_json::Error>)
    ensures
        match parsed {
            Ok(names) => names_of_text(text@) == Some(names.deep_view()),
            Err(_) => names_of_text(text@) is None,
        },
{
    serde_json::from_str(text)
}

} // verus!
