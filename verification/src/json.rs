//! Trusted view of serde_json's `Value` for walking manifest and index
//! documents.
//!
//! Parsing general JSON is serde_json's work; this module only names what
//! its functions return, so that the verified parsers built on top can
//! carry exact contracts.  Every result below is a function of the
//! arguments alone: what bytes parse to, and what a given value holds,
//! depend on nothing else.

use vstd::prelude::*;

verus! {

#[verifier::external_type_specification]
#[verifier::external_body]
pub struct ExJsonValue(serde_json::Value);

/// What a byte string parses to, or none when it is not valid JSON.
pub uninterp spec fn parsed_json(bytes: Seq<u8>) -> Option<serde_json::Value>;

/// Relies on serde_json::from_slice::<Value>: the value a byte string
/// parses to is a function of the bytes alone; bytes that are not valid
/// JSON yield an error, folded to none here.
#[verifier::external_body]
pub(crate) fn json_from_slice(bytes: &[u8]) -> (r: Option<serde_json::Value>)
    ensures
        r == parsed_json(bytes@),
{
    serde_json::from_slice::<serde_json::Value>(bytes).ok()
}

/// The member of a JSON object under a key, or none when the value is not
/// an object or has no such member.
pub uninterp spec fn json_field(v: serde_json::Value, key: Seq<char>) -> Option<serde_json::Value>;

/// Relies on serde_json::Value::get: object lookup by key; none for a
/// missing key or a non-object.
#[verifier::external_body]
pub(crate) fn json_get(v: &serde_json::Value, key: &str) -> (r: Option<serde_json::Value>)
    ensures
        r == json_field(*v, key@),
{
    v.get(key).cloned()
}

/// The characters of a JSON string, or none when the value is not a string.
pub uninterp spec fn json_string(v: serde_json::Value) -> Option<Seq<char>>;

/// Relies on serde_json::Value::as_str: the string a JSON string value
/// holds; none for any other kind of value.
#[verifier::external_body]
pub(crate) fn json_as_str(v: &serde_json::Value) -> (r: Option<String>)
    ensures
        r matches Option::Some(s) ==> json_string(*v) == Option::Some(s@),
        r is None ==> json_string(*v) is None,
{
    v.as_str().map(|s| s.to_string())
}

/// The elements of a JSON array, or none when the value is not an array.
pub uninterp spec fn json_array(v: serde_json::Value) -> Option<Seq<serde_json::Value>>;

/// Relies on serde_json::Value::as_array: the elements of a JSON array in
/// their order; none for any other kind of value.
#[verifier::external_body]
pub(crate) fn json_as_array(v: &serde_json::Value) -> (r: Option<Vec<serde_json::Value>>)
    ensures
        r matches Option::Some(a) ==> json_array(*v) == Option::Some(a@),
        r is None ==> json_array(*v) is None,
{
    v.as_array().cloned()
}

/// The value of a JSON number representable as u64, or none otherwise.
pub uninterp spec fn json_u64(v: serde_json::Value) -> Option<u64>;

/// Relies on serde_json::Value::as_u64: the value of an unsigned integer
/// number; none for floats, negatives and non-numbers.
#[verifier::external_body]
pub(crate) fn json_as_u64(v: &serde_json::Value) -> (r: Option<u64>)
    ensures
        r == json_u64(*v),
{
    v.as_u64()
}

/// Whether a JSON value is the null value.
pub uninterp spec fn json_is_null(v: serde_json::Value) -> bool;

/// Relies on serde_json::Value::is_null.
#[verifier::external_body]
pub(crate) fn json_null(v: &serde_json::Value) -> (r: bool)
    ensures
        r == json_is_null(*v),
{
    v.is_null()
}

} // verus!
