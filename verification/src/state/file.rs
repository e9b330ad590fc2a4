//! The protected resource record and its fee accumulator.

use vstd::prelude::*;

use crate::state::metadata::Metadata;
use crate::state::pubkey::Pubkey;

verus! {

/// The class of a file: `Basic` files charge their configured fee,
/// `Free` files are fee-exempt.
#[derive(Clone, Copy, Debug, PartialEq, Eq, Structural)]
pub enum AccountTypes {
    Basic,
    Free,
}

impl AccountTypes {
    /// The wire encoding of the class, stored in `File::account_type`.
    pub open spec fn spec_value(self) -> u8 {
        match self {
            AccountTypes::Basic => 0,
            AccountTypes::Free => 1,
        }
    }

    #[verifier::when_used_as_spec(spec_value)]
    pub fn value(self) -> (v: u8)
        ensures
            v == self.spec_value(),
    {
        match self {
            AccountTypes::Basic => 0,
            AccountTypes::Free => 1,
        }
    }
}

/// Which cache-invalidation timestamp of a file an update refers to.
#[derive(Clone, Copy, Debug, PartialEq, Eq, Structural)]
pub enum CacheUpdated {
    Roles,
    Rules,
}

impl CacheUpdated {
    /// The wire encoding of the selector.
    pub open spec fn spec_value(self) -> u8 {
        match self {
            CacheUpdated::Roles => 0,
            CacheUpdated::Rules => 1,
        }
    }

    #[verifier::when_used_as_spec(spec_value)]
    pub fn value(self) -> (v: u8)
        ensures
            v == self.spec_value(),
    {
        match self {
            CacheUpdated::Roles => 0,
            CacheUpdated::Rules => 1,
        }
    }
}

/// The fields a caller supplies to create a file.
#[derive(Clone, Debug, PartialEq)]
pub struct FileData {
    pub id: Pubkey,
    pub recovery: Option<Pubkey>,
    pub name: String,
    pub cached: bool,
    pub size: u64,
    pub checksum: String,
    pub expires_at: i64,
    pub metadata: Option<Vec<Metadata>>,
}

/// The fields a caller supplies to update a file. Optional fields keep their
/// stored value when absent.
#[derive(Clone, Debug, PartialEq)]
pub struct UpdateFileData {
    pub authority: Pubkey,
    pub recovery: Option<Pubkey>,
    pub name: String,
    pub cached: bool,
    pub fee: Option<u64>,
    pub size: Option<u64>,
    pub checksum: String,
    pub account_type: u8,
    pub expires_at: Option<i64>,
}

/// The protected resource. Its authority (and optional recovery identity)
/// bypass every rule and fee check. `roles_updated_at` and `rules_updated_at`
/// are cache-invalidation signals for external readers.
#[derive(Clone, Debug, PartialEq)]
pub struct File {
    pub id: Pubkey,
    pub authority: Pubkey,
    pub recovery: Option<Pubkey>,
    pub bump: u8,
    pub name: String,
    pub roles_updated_at: i64,
    pub rules_updated_at: i64,
    pub cached: bool,
    pub fee: Option<u64>,
    pub size: u64,
    pub checksum: String,
    pub account_type: u8,
    pub expires_at: i64,
}

impl File {
    /// An exact copy of the record.
    pub fn duplicate(&self) -> (c: File)
        ensures
            c == *self,
    {
        File {
            id: self.id,
            authority: self.authority,
            recovery: self.recovery,
            bump: self.bump,
            name: self.name.clone(),
            roles_updated_at: self.roles_updated_at,
            rules_updated_at: self.rules_updated_at,
            cached: self.cached,
            fee: self.fee,
            size: self.size,
            checksum: self.checksum.clone(),
            account_type: self.account_type,
            expires_at: self.expires_at,
        }
    }
}

/// A change notification for external cache consumers.
#[derive(Clone, Copy, Debug, PartialEq, Eq, Structural)]
pub struct FileChanged {
    pub time: i64,
    pub file_id: Pubkey,
    pub authority: Pubkey,
}

/// The per-principal fee accumulator. `initialized` is flipped on the
/// principal's first fee-bearing, admitted call, which is also the one call
/// rebated for the accumulator's own storage cost. `balance` mirrors the
/// currency the accumulator has collected.
#[derive(Clone, Copy, Debug, PartialEq, Eq, Structural)]
pub struct Seed {
    pub initialized: bool,
    pub balance: u64,
}

} // verus!
