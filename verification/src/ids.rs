//! Account identities.

use vstd::prelude::*;

verus! {

/// The identity of an account: a voter, the administrator, a token mint, or
/// one of the resource handles passed to the external pool program.
///
/// The host chain addresses accounts by opaque keys; the library only ever
/// compares identities for equality and passes them through, so it models a
/// key as a plain number.
#[derive(Clone, Copy, Debug, PartialEq, Eq, Structural)]
pub struct AccountId {
    pub id: u64,
}

impl AccountId {
    pub fn new(id: u64) -> (r: AccountId)
        ensures
            r.id == id,
    {
        AccountId { id }
    }
}

} // verus!
