//! The outside JSON value type that some responses carry through opaquely.

use vstd::prelude::*;

verus! {

/// Relies on `serde_json::Value` being a plain data type. Declaring it
/// lets fields and result types hold one; the library never looks inside
/// such a value, it only carries it through to the caller.
#[verifier::external_type_specification]
#[verifier::external_body]
pub struct ExValue(serde_json::Value);

} // verus!
