//! Opaque JSON values that the protocol carries and this crate passes on
//! untouched.

use vstd::prelude::*;

verus! {

/// Trusted: the type `serde_json::Value`, declared so that values of it can
/// be held and handed on. Nothing is known of what one holds.
#[verifier::external_type_specification]
#[verifier::external_body]
pub struct ExValue(serde_json::Value);

/// Trusted: the `Clone` impl of `serde_json::Value`, which the outside crate
/// derives. The claim is that a clone is the same value as the one it was made from.
pub assume_specification[ <serde_json::Value as Clone>::clone ](v: &serde_json::Value) -> (r:
    serde_json::Value)
    ensures
        r == *v,
;

} // verus!
