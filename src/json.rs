//! The JSON parser this library relies on (serde_json), and what is assumed of it.
//!
//! A parsed JSON object is described by its members, each value reduced to
//! what the record decoding reads of it: the text when the value is a JSON
//! string, `None` when it is anything else.
use vstd::prelude::*;

verus! {

#[verifier::external_type_specification]
#[verifier::external_body]
pub struct ExJsonValue(serde_json::Value);

#[verifier::external_type_specification]
#[verifier::external_body]
#[verifier::reject_recursive_types(K)]
#[verifier::reject_recursive_types(V)]
pub struct ExJsonMap<K, V>(serde_json::Map<K, V>);

#[verifier::external_type_specification]
#[verifier::external_body]
pub struct ExJsonError(serde_json::Error);

/// A parsed JSON object.
pub type JsonObject = serde_json::Map<String, serde_json::Value>;

/// What a JSON object holds: for each member name, `Some(text)` when the
/// member's value is the JSON string `text`, `None` when it is any other value.
pub uninterp spec fn object_members(m: serde_json::Map<String, serde_json::Value>) -> Map<Seq<char>, Option<Seq<char>>>;

/// The members (as in `object_members`) of the object that the bytes hold as
/// one complete JSON text, or `None` where serde_json refuses the bytes as
/// such an object.
pub uninterp spec fn parsed_object(b: Seq<u8>) -> Option<Map<Seq<char>, Option<Seq<char>>>>;

/// The view of an optional text.
pub open spec fn text_view(t: Option<String>) -> Option<Seq<char>> {
    match t {
        Some(s) => Some(s@),
        None => None,
    }
}

/// Relies on serde_json::from_slice into a `serde_json::Map`: it succeeds
/// exactly on the bytes of one JSON object (with surrounding whitespace), and
/// fails on empty input (end of input while parsing a value).
#[verifier::external_body]
pub(crate) fn parse_object(b: &[u8]) -> (r: Result<JsonObject, serde_json::Error>)
    ensures
        r is Ok <==> parsed_object(b@) is Some,
        r is Ok ==> parsed_object(b@) == Some(object_members(r->Ok_0)),
        b@.len() == 0 ==> r is Err,
{
    serde_json::from_slice(b)
}

/// Relies on serde_json::Map::get: the member under `key`, if any, with its
/// value converted to its text when it is a JSON string.
#[verifier::external_body]
pub(crate) fn member_text(m: &JsonObject, key: &str) -> (r: Option<Option<String>>)
    ensures
        r is None <==> !object_members(*m).contains_key(key@),
        r is Some ==> object_members(*m)[key@] == text_view(r->Some_0),
{
    match m.get(key) {
        None => None,
        Some(serde_json::Value::String(s)) => Some(Some(s.clone())),
        Some(_) => Some(None),
    }
}

} // verus!
