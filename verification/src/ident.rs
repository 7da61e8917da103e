//! Identifiers for new records.

use uuid::Uuid;
use vstd::prelude::*;

verus! {

/// Draws a random identifier with `uuid::Uuid::new_v4` and writes it in the
/// hyphenated lower-case form of its `Display`, which has 36 characters.
/// Nothing else is claimed of it: two calls may give any two identifiers.
/// `new_v4` stops the program where the system has no random numbers to give.
#[verifier::external_body]
pub(crate) fn fresh_id() -> (id: String)
    ensures
        id@.len() == 36,
{
    Uuid::new_v4().to_string()
}

} // verus!
