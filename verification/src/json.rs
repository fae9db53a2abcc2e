//! JSON values, which this crate carries without looking inside.

use vstd::prelude::*;

verus! {

/// Declares `serde_json::Value` to the verifier. A value of it is opaque.
#[verifier::external_type_specification]
#[verifier::external_body]
pub struct ExJsonValue(serde_json::Value);

/// What a JSON value holds, as the compact text that it prints.
pub uninterp spec fn json_text(value: serde_json::Value) -> Seq<char>;

/// Calls `serde_json::Value::default`, which is documented to be `Value::Null`: the value
/// that prints as `null`.
#[verifier::external_body]
pub(crate) fn null() -> (value: serde_json::Value)
    ensures
        json_text(value) == "null"@,
{
    serde_json::Value::default()
}

} // verus!
