//! The JSON values that the crate carries, and the one place where text is
//! parsed into them.

use vstd::prelude::*;

verus! {

/// `serde_json::Value`: a JSON value of any shape. The crate carries such
/// values and never looks inside them.
#[verifier::external_type_specification]
#[verifier::external_body]
pub struct ExJsonValue(serde_json::Value);

/// `serde_json::Map`: a JSON object, carried as it came.
#[verifier::external_type_specification]
#[verifier::external_body]
#[verifier::reject_recursive_types(K)]
#[verifier::reject_recursive_types(V)]
pub struct ExJsonMap<K, V>(serde_json::Map<K, V>);

/// The value that `text` denotes as JSON, or `None` where `text` is not one
/// JSON value.
pub uninterp spec fn json_value(text: Seq<char>) -> Option<serde_json::Value>;

/// `serde_json::from_str` at type `Value`. What it returns depends on the
/// text alone; [`json_value`] names it, with the parser's error dropped.
#[verifier::external_body]
pub(crate) fn parse_value(text: &str) -> (value: Option<serde_json::Value>)
    ensures
        value == json_value(text@),
{
    match serde_json::from_str::<serde_json::Value>(text) {
        Ok(value) => Some(value),
        Err(_) => None,
    }
}

} // verus!
