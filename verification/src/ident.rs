//! Generation of link-record identifiers.
//!
//! An identifier is a 128-bit random value rendered as a canonical UUID
//! string.  No uniqueness check is made here: the storage gateway's
//! uniqueness constraint is the collision backstop.

use vstd::prelude::*;

verus! {

/// Relies on uuid::Uuid::new_v4 and its canonical hyphenated rendering: a
/// freshly drawn random version-4 UUID printed as a 36-character string.
/// The value is random, so nothing beyond its length is promised.
#[verifier::external_body]
pub(crate) fn fresh_identifier() -> (r: String)
    ensures
        r@.len() == 36,
{
    uuid::Uuid::new_v4().to_string()
}

} // verus!
