//! Reading JSON documents. The documents are parsed by `serde_json`; this
//! module states what the library relies on and walks the parsed values.

use vstd::prelude::*;

verus! {

/// The part of a JSON value that the library reads: strings, arrays and
/// objects; every other value (null, booleans, numbers) is `Other`.
pub enum Json {
    Text(Seq<char>),
    Array(Seq<Json>),
    Object(Map<Seq<char>, Json>),
    Other,
}

#[verifier::external_type_specification]
#[verifier::external_body]
pub struct ExValue(serde_json::Value);

#[verifier::external_type_specification]
#[verifier::external_body]
pub struct ExError(serde_json::Error);

/// What a parsed value holds.
pub uninterp spec fn json_of(value: serde_json::Value) -> Json;

/// What a text holds when it is read as one JSON document; `None` where it
/// is not one.
pub uninterp spec fn parsed_json(text: Seq<char>) -> Option<Json>;

/// The values of a text that is read as a JSON object of strings, in the
/// order of their keys, each key counted once; `None` where the text is not
/// such an object.
pub uninterp spec fn parsed_string_values(text: Seq<char>) -> Option<Seq<Seq<char>>>;

/// The member of an object under a key; `None` where the value is no
/// object or has no such member.
pub open spec fn member(doc: Json, key: Seq<char>) -> Option<Json> {
    match doc {
        Json::Object(members) => if members.contains_key(key) {
            Some(members[key])
        } else {
            None
        },
        _ => None,
    }
}

/// The member under a key of a value that may be missing.
pub open spec fn member_of(doc: Option<Json>, key: Seq<char>) -> Option<Json> {
    match doc {
        Some(d) => member(d, key),
        None => None,
    }
}

/// The text of a value that is a string.
pub open spec fn text_of(doc: Option<Json>) -> Option<Seq<char>> {
    match doc {
        Some(Json::Text(s)) => Some(s),
        _ => None,
    }
}

/// Trusted: `serde_json::from_str` at the type `serde_json::Value`. The
/// outcome depends on the text alone; the contract only gives it a name.
#[verifier::external_body]
pub(crate) fn parse_document(text: &str) -> (r: Result<serde_json::Value, serde_json::Error>)
    ensures
        match r {
            Ok(value) => parsed_json(text@) == Some(json_of(value)),
            Err(_) => parsed_json(text@) is None,
        },
{
    serde_json::from_str::<serde_json::Value>(text)
}

/// Trusted: `serde_json::from_str` at the type of a map from strings to
/// strings that is ordered by its keys, followed by the map's values in that
/// order. The outcome depends on the text alone; the contract only gives it
/// a name.
#[verifier::external_body]
pub(crate) fn parse_string_values(text: &str) -> (r: Result<Vec<String>, serde_json::Error>)
    ensures
        match r {
            Ok(values) => parsed_string_values(text@) == Some(values.deep_view()),
            Err(_) => parsed_string_values(text@) is None,
        },
{
    serde_json::from_str::<std::collections::BTreeMap<String, String>>(text).map(
        |m| m.into_values().collect(),
    )
}

/// Trusted: `serde_json::Value::get` with a string key. It returns the
/// member of an object under that key, and `None` for a value that is no
/// object or has no such member.
#[verifier::external_body]
pub(crate) fn get<'a>(value: &'a serde_json::Value, key: &str) -> (r: Option<&'a serde_json::Value>)
    ensures
        match r {
            Some(found) => member(json_of(*value), key@) == Some(json_of(*found)),
            None => member(json_of(*value), key@) is None,
        },
{
    value.get(key)
}

/// Trusted: `serde_json::Value::as_array`. It returns the elements of an
/// array, and `None` for any other value.
#[verifier::external_body]
pub(crate) fn as_array<'a>(value: &'a serde_json::Value) -> (r: Option<&'a Vec<serde_json::Value>>)
    ensures
        match r {
            Some(items) => json_of(*value) matches Json::Array(elements) && elements.len()
                == items@.len() && forall|i: int|
                0 <= i < items@.len() ==> json_of(#[trigger] items@[i]) == elements[i],
            None => !(json_of(*value) is Array),
        },
{
    value.as_array()
}

/// Trusted: `serde_json::Value::as_str`. It returns the text of a string,
/// and `None` for any other value.
#[verifier::external_body]
pub(crate) fn as_str<'a>(value: &'a serde_json::Value) -> (r: Option<&'a str>)
    ensures
        match r {
            Some(text) => json_of(*value) == Json::Text(text@),
            None => !(json_of(*value) is Text),
        },
{
    value.as_str()
}

} // verus!
