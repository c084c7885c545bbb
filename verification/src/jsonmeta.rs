//! Trusted boundary to `serde_json`: the embedded metadata documents of
//! a package are byte vectors, and the crate's parser is relied on to
//! extract single fields from them.
//!
//! The names below stand for what `serde_json` computes from the
//! document bytes; they are functions of the bytes alone.

use vstd::prelude::*;

verus! {

/// The value of the string field `key` at the top level of the JSON
/// document `bytes`: `None` when the document does not parse, is not an
/// object, lacks the key, or holds a non-string there.
pub uninterp spec fn json_string_field(bytes: Seq<u8>, key: Seq<char>) -> Option<Seq<char>>;

/// The value of the integer field `key` at the top level of the JSON
/// document `bytes`, under the same conventions as `json_string_field`.
pub uninterp spec fn json_i64_field(bytes: Seq<u8>, key: Seq<char>) -> Option<i64>;

/// Whether the JSON document `bytes` parses to an object whose
/// `resources` field is a non-empty array; a document that does not
/// parse counts as not having one.
pub uninterp spec fn json_resources_nonempty(bytes: Seq<u8>) -> bool;

/// Relies on `serde_json::from_slice` to parse the document and on
/// `Value::get` / `Value::as_str` to read one top-level string field.
#[verifier::external_body]
pub fn read_json_string_field(bytes: &Vec<u8>, key: &str) -> (r: Option<String>)
    ensures
        r matches Some(s) ==> json_string_field(bytes@, key@) == Some(s@),
        r is None ==> json_string_field(bytes@, key@) is None,
{
    let value: serde_json::Value = serde_json::from_slice(bytes.as_slice()).ok()?;
    Some(value.get(key)?.as_str()?.to_owned())
}

/// Relies on `serde_json::from_slice` to parse the document and on
/// `Value::get` / `Value::as_i64` to read one top-level integer field.
#[verifier::external_body]
pub fn read_json_i64_field(bytes: &Vec<u8>, key: &str) -> (r: Option<i64>)
    ensures
        r == json_i64_field(bytes@, key@),
{
    let value: serde_json::Value = serde_json::from_slice(bytes.as_slice()).ok()?;
    value.get(key)?.as_i64()
}

/// Relies on `serde_json::from_slice` to parse the document and on
/// `Value::get` / `Value::as_array` to test whether its `resources`
/// field is a non-empty array.
#[verifier::external_body]
pub fn read_json_resources_nonempty(bytes: &Vec<u8>) -> (r: bool)
    ensures
        r == json_resources_nonempty(bytes@),
{
    match serde_json::from_slice::<serde_json::Value>(bytes.as_slice()) {
        Ok(value) => match value.get("resources").and_then(|v| v.as_array()) {
            Some(resources) => !resources.is_empty(),
            Option::None => false,
        },
        Err(_) => false,
    }
}

} // verus!
