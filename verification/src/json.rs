//! The free-form payload of a script node.
//!
//! A payload is a `serde_json::Value`. The store never looks inside one: it
//! keeps it, copies it and hands it back.

use vstd::prelude::*;

verus! {

/// `serde_json::Value`, declared so that it can stand in fields and
/// signatures. Nothing is known of what a value holds.
#[verifier::external_type_specification]
#[verifier::external_body]
pub struct ExJsonValue(serde_json::Value);

/// `<serde_json::Value as Clone>::clone`, which is derived for the enum and
/// copies every variant with all it holds: the copy is the same JSON value.
/// Taken on trust, not proved.
pub assume_specification[ <serde_json::Value as Clone>::clone ](
    value: &serde_json::Value,
) -> (copy: serde_json::Value)
    ensures
        copy == *value,
;

} // verus!
