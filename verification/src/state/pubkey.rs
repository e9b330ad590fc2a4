//! The identity of a principal, asset or file. The engine only ever compares
//! identities for equality, so the model keeps the opaque address of the host
//! platform as a single machine word.

use vstd::prelude::*;

verus! {

/// An account address. Two addresses denote the same principal or asset
/// exactly when they are equal.
#[derive(Clone, Copy, Debug, Hash, PartialEq, Eq, Structural)]
pub struct Pubkey {
    pub value: u64,
}

impl Pubkey {
    pub fn new(value: u64) -> (r: Pubkey)
        ensures
            r.value == value,
    {
        Pubkey { value }
    }
}

} // verus!
