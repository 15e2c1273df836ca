//! Fresh identifiers for new rows, drawn from `uuid`.

use vstd::prelude::*;

verus! {

/// Calls `uuid::Uuid::new_v4` and renders the identifier with its `Display`
/// impl, which writes the hyphenated form: 32 hexadecimal digits in five
/// groups, 36 characters in all.
///
/// The identifier is random; only its length is claimed. That it differs
/// from every identifier handed out before is overwhelmingly likely and is
/// not assumed anywhere: the tables check. `new_v4` panics where the system
/// has no randomness to give.
#[verifier::external_body]
pub(crate) fn fresh_id() -> (id: String)
    ensures
        id@.len() == 36,
{
    uuid::Uuid::new_v4().to_string()
}

} // verus!
