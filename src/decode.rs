//! Decoding an item record from a response body.
use vstd::prelude::*;
use crate::item::{ItemDetail, FetchError, outcome_view};
use crate::json::{JsonObject, object_members, parsed_object, parse_object, member_text};

verus! {

/// The member name of the record's first field.
pub open spec fn data_field_key() -> Seq<char> {
    "data_field"@
}

/// The member name of the record's second field.
pub open spec fn correct_field_name_key() -> Seq<char> {
    "correct_field_name"@
}

/// Whether the members hold the JSON string `text` under `key`.
pub open spec fn has_text(f: Map<Seq<char>, Option<Seq<char>>>, key: Seq<char>, text: Seq<char>) -> bool {
    f.contains_key(key) && f[key] == Some(text)
}

/// The record that an object's members decode to: both fields present as JSON
/// strings, every other member ignored; otherwise a decode error.
pub open spec fn item_from_members(f: Map<Seq<char>, Option<Seq<char>>>) -> Result<(Seq<char>, Seq<char>), FetchError> {
    if f.contains_key(data_field_key()) && f[data_field_key()] is Some
        && f.contains_key(correct_field_name_key()) && f[correct_field_name_key()] is Some {
        Ok((f[data_field_key()]->Some_0, f[correct_field_name_key()]->Some_0))
    } else {
        Err(FetchError::DecodeError)
    }
}

/// The record that a response body decodes to: a decode error unless the body
/// is one JSON object.
pub open spec fn item_from_body(b: Seq<u8>) -> Result<(Seq<char>, Seq<char>), FetchError> {
    match parsed_object(b) {
        Some(f) => item_from_members(f),
        None => Err(FetchError::DecodeError),
    }
}

/// Reads the record out of a parsed JSON object.
pub fn item_from_object(m: &JsonObject) -> (r: Result<ItemDetail, FetchError>)
    ensures
        outcome_view(r) == item_from_members(object_members(*m)),
{
    let data = member_text(m, "data_field");
    let correct = member_text(m, "correct_field_name");
    match (data, correct) {
        (Some(Some(d)), Some(Some(c))) => Ok(ItemDetail { data_field: d, correct_field_name: c }),
        _ => Err(FetchError::DecodeError),
    }
}

/// Decodes the record from a response body.
pub fn decode_item(body: &[u8]) -> (r: Result<ItemDetail, FetchError>)
    ensures
        outcome_view(r) == item_from_body(body@),
        body@.len() == 0 ==> r == Err::<ItemDetail, FetchError>(FetchError::DecodeError),
{
    match parse_object(body) {
        Ok(m) => item_from_object(&m),
        Err(_) => Err(FetchError::DecodeError),
    }
}

} // verus!

verus! {

/// An object that holds both fields as JSON strings decodes to a record with
/// exactly those two texts, and a further member under any other name leaves
/// that record unchanged.
pub proof fn lemma_string_fields_decode(
    f: Map<Seq<char>, Option<Seq<char>>>,
    data: Seq<char>,
    correct: Seq<char>,
    extra_key: Seq<char>,
    extra_value: Option<Seq<char>>,
)
    requires
        has_text(f, data_field_key(), data),
        has_text(f, correct_field_name_key(), correct),
        extra_key != data_field_key(),
        extra_key != correct_field_name_key(),
    ensures
        item_from_members(f) == Ok::<(Seq<char>, Seq<char>), FetchError>((data, correct)),
        item_from_members(f.insert(extra_key, extra_value)) == Ok::<(Seq<char>, Seq<char>), FetchError>((data, correct)),
{
}

/// An object without a `correct_field_name` member gives a decode error, and
/// so no record at all.
pub proof fn lemma_missing_field_fails(f: Map<Seq<char>, Option<Seq<char>>>)
    requires
        !f.contains_key(correct_field_name_key()),
    ensures
        item_from_members(f) == Err::<(Seq<char>, Seq<char>), FetchError>(FetchError::DecodeError),
{
}

/// An object whose `data_field` member is present but not a JSON string (a
/// number, an object, ...) gives a decode error.
pub proof fn lemma_non_string_field_fails(f: Map<Seq<char>, Option<Seq<char>>>)
    requires
        f.contains_key(data_field_key()),
        f[data_field_key()] is None,
    ensures
        item_from_members(f) == Err::<(Seq<char>, Seq<char>), FetchError>(FetchError::DecodeError),
{
}

/// A body that is not the text of one JSON object gives a decode error.
pub proof fn lemma_malformed_body_fails(b: Seq<u8>)
    requires
        parsed_object(b) is None,
    ensures
        item_from_body(b) == Err::<(Seq<char>, Seq<char>), FetchError>(FetchError::DecodeError),
{
}

} // verus!
