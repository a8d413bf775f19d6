//! The boundary to `serde_json`: the two types of that crate which pass
//! through the library, and the calls the library makes into it.
//!
//! A `serde_json::Value` is the generic structured value that documents are
//! encoded from and decoded to, and the payload of the open metadata bags.
//! The library never looks inside one.

use vstd::prelude::*;

verus! {

/// `serde_json::Value`, carried through as an opaque value.
#[verifier::external_type_specification]
#[verifier::external_body]
pub struct ExJsonValue(serde_json::Value);

/// `serde_json::Error`, carried through as an opaque value.
#[verifier::external_type_specification]
#[verifier::external_body]
pub struct ExJsonError(serde_json::Error);

/// Calls `clone` on a `serde_json::Value`, whose `Clone` impl is derived: the
/// copy is the same JSON value.
#[verifier::external_body]
pub(crate) fn clone_value(value: &serde_json::Value) -> (copy: serde_json::Value)
    ensures
        copy == *value,
{
    value.clone()
}

/// The text that `serde_json::Error` displays for an error.
pub uninterp spec fn json_error_text(e: serde_json::Error) -> Seq<char>;

/// Calls `to_string` on a `serde_json::Error`, which goes through its
/// `Display` impl: the error's message, followed by the line and column where
/// it has them. The contract only names that text.
#[verifier::external_body]
pub(crate) fn json_error_message(e: &serde_json::Error) -> (text: String)
    ensures
        text@ == json_error_text(*e),
{
    e.to_string()
}

/// The compact JSON text of a value, where `serde_json` produces one.
pub uninterp spec fn compact_json(value: serde_json::Value) -> Option<Seq<u8>>;

/// The pretty-printed JSON text of a value, where `serde_json` produces one.
pub uninterp spec fn pretty_json(value: serde_json::Value) -> Option<Seq<u8>>;

/// The value that a JSON text stands for, where the text is well-formed.
pub uninterp spec fn parsed_json(text: Seq<u8>) -> Option<serde_json::Value>;

/// Calls `serde_json::to_vec`: the value as a JSON byte vector, without
/// white space between the tokens. The contract only names that text.
#[verifier::external_body]
pub(crate) fn to_compact_json(value: &serde_json::Value) -> (r: Result<Vec<u8>, serde_json::Error>)
    ensures
        match r {
            Ok(bytes) => compact_json(*value) == Some(bytes@),
            Err(_) => compact_json(*value).is_none(),
        },
{
    serde_json::to_vec(value)
}

/// Calls `serde_json::to_vec_pretty`: the value as a JSON byte vector, one
/// member per line and indented. The contract only names that text.
#[verifier::external_body]
pub(crate) fn to_pretty_json(value: &serde_json::Value) -> (r: Result<Vec<u8>, serde_json::Error>)
    ensures
        match r {
            Ok(bytes) => pretty_json(*value) == Some(bytes@),
            Err(_) => pretty_json(*value).is_none(),
        },
{
    serde_json::to_vec_pretty(value)
}

/// Calls `serde_json::from_slice` for a `serde_json::Value`: the value that
/// the bytes spell as JSON, or why they spell none. The contract only names
/// that value.
#[verifier::external_body]
pub(crate) fn parse_json(data: &[u8]) -> (r: Result<serde_json::Value, serde_json::Error>)
    ensures
        match r {
            Ok(value) => parsed_json(data@) == Some(value),
            Err(_) => parsed_json(data@).is_none(),
        },
{
    serde_json::from_slice::<serde_json::Value>(data)
}

} // verus!
