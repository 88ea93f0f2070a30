//! The JSON response body, read through `serde_json` behind trusted wrappers.
//!
//! A parsed document is modelled by `value_str_fields`: the map from the
//! names of the string-valued members of the top-level object to those
//! strings (empty where the document is not an object). `json_str_fields`
//! gives the same map as a function of the raw bytes, and `json_is_valid`
//! says whether the bytes parse as one JSON document at all.

use vstd::prelude::*;

verus! {

#[verifier::external_type_specification]
#[verifier::external_body]
pub struct ExValue(serde_json::Value);

#[verifier::external_type_specification]
#[verifier::external_body]
pub struct ExError(serde_json::Error);

/// Whether the bytes parse as one JSON document.
pub uninterp spec fn json_is_valid(bytes: Seq<u8>) -> bool;

/// The string-valued members of the top-level object of the document the
/// bytes hold, keyed by member name; empty where the document is no object.
pub uninterp spec fn json_str_fields(bytes: Seq<u8>) -> Map<Seq<char>, Seq<char>>;

/// The string-valued members of a parsed value, keyed by member name;
/// empty where the value is no object.
pub uninterp spec fn value_str_fields(v: serde_json::Value) -> Map<Seq<char>, Seq<char>>;

/// Relies on serde_json::from_slice: parses the bytes as one JSON document,
/// returning the parser's error where they are not valid JSON.
#[verifier::external_body]
pub(crate) fn parse_json(bytes: &[u8]) -> (r: Result<serde_json::Value, serde_json::Error>)
    ensures
        r is Ok <==> json_is_valid(bytes@),
        r matches Ok(v) ==> value_str_fields(v) == json_str_fields(bytes@),
{
    serde_json::from_slice::<serde_json::Value>(bytes)
}

/// Relies on serde_json::Value::get and Value::as_str: looks up a member of
/// the top-level object and hands its text out where it is a string.
#[verifier::external_body]
pub(crate) fn get_str_member(v: &serde_json::Value, key: &str) -> (r: Option<String>)
    ensures
        match r {
            Some(s) => value_str_fields(*v).contains_key(key@) && s@ == value_str_fields(*v)[key@],
            None => !value_str_fields(*v).contains_key(key@),
        },
{
    v.get(key).and_then(serde_json::Value::as_str).map(str::to_owned)
}

/// Relies on the Display impl of serde_json::Error: the parser's own message.
#[verifier::external_body]
pub(crate) fn json_error_text(e: &serde_json::Error) -> String {
    e.to_string()
}

} // verus!
