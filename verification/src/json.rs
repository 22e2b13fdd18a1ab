//! JSON values, as `serde_json` holds them.

use serde_json::Value;
use vstd::prelude::*;

verus! {

/// A JSON document. The library carries such values and never looks inside.
#[verifier::external_type_specification]
#[verifier::external_body]
pub struct ExValue(serde_json::Value);

/// The JSON document that holds a boolean and nothing else: what `serde_json::Value::from`
/// makes of it.
pub uninterp spec fn json_bool(b: bool) -> Value;

/// Calls `<serde_json::Value as From<bool>>::from`. The result is a function of `b` alone.
#[verifier::external_body]
pub(crate) fn bool_value(b: bool) -> (value: Value)
    ensures
        value == json_bool(b),
{
    Value::from(b)
}

/// Calls `<serde_json::Value as Clone>::clone`, which copies the whole document: the copy is
/// the same JSON document.
#[verifier::external_body]
pub(crate) fn copy_value(value: &Value) -> (copy: Value)
    ensures
        copy == *value,
{
    value.clone()
}

} // verus!
