//! The opaque structured values that cross the plugin boundary: a proxy
//! candidate's private configuration and a test's result payload. The
//! orchestration core never interprets them; it only carries them through.

use vstd::prelude::*;

verus! {

#[verifier::external_type_specification]
#[verifier::external_body]
pub struct ExValue(serde_json::Value);

/// Relies on serde_json's `Clone` for `Value`: the copy equals the original.
#[verifier::external_body]
pub(crate) fn clone_value(v: &serde_json::Value) -> (r: serde_json::Value)
    ensures
        r == *v,
{
    v.clone()
}

} // verus!
