//! Generation of fresh identifiers for newly created maps and tasks.

use vstd::prelude::*;

verus! {

/// Relies on `uuid::Uuid::new_v4` and the `Display` form of `uuid::Uuid`,
/// which renders the hyphenated lower-case form of 36 characters. The value
/// is drawn at random, so nothing is promised of the characters themselves.
#[verifier::external_body]
pub(crate) fn fresh_uuid_string() -> (r: String)
    ensures
        r@.len() == 36,
{
    uuid::Uuid::new_v4().to_string()
}

} // verus!
