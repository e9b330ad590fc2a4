//! Role grants: who may act on a file, at which permission level, and whether
//! they may re-delegate.

use vstd::prelude::*;

use crate::state::pubkey::Pubkey;

verus! {

/// What kind of address a role is granted to: a wallet, a collection of
/// assets, or a decentralized identifier.
#[derive(Clone, Copy, Debug, PartialEq, Eq, Structural)]
pub enum AddressType {
    Wallet,
    Collection,
    DID,
}

impl AddressType {
    /// The symbolic name of the address kind.
    pub fn to_string(&self) -> (r: String)
        ensures
            r@ == self.spec_name(),
    {
        match self {
            AddressType::Wallet => "Wallet".to_owned(),
            AddressType::Collection => "Collection".to_owned(),
            AddressType::DID => "DID".to_owned(),
        }
    }

    pub open spec fn spec_name(self) -> Seq<char> {
        match self {
            AddressType::Wallet => "Wallet"@,
            AddressType::Collection => "Collection"@,
            AddressType::DID => "DID"@,
        }
    }
}

/// The capabilities the ordinal permission levels stand for.
#[derive(Clone, Copy, Debug, PartialEq, Eq, Structural)]
pub enum ActionType {
    View,
    Update,
    Delete,
}

impl ActionType {
    /// The least permission level that grants the action:
    /// 1 views, 2 updates, 3 deletes.
    pub open spec fn spec_required_level(self) -> u8 {
        match self {
            ActionType::View => 1,
            ActionType::Update => 2,
            ActionType::Delete => 3,
        }
    }

    #[verifier::when_used_as_spec(spec_required_level)]
    pub fn required_level(self) -> (v: u8)
        ensures
            v == self.spec_required_level(),
    {
        match self {
            ActionType::View => 1,
            ActionType::Update => 2,
            ActionType::Delete => 3,
        }
    }
}

/// The fields a caller supplies to grant a role. A `None` address is the
/// wildcard: the grant applies to any principal or asset.
#[derive(Clone, Copy, Debug, PartialEq, Eq, Structural)]
pub struct AssignRoleData {
    pub address: Option<Pubkey>,
    pub permission_level: u8,
    pub can_share: bool,
    pub address_type: AddressType,
    pub expires_at: Option<i64>,
}

/// A grant of capability scoped to one file. `address` is the principal or
/// asset granted to (`None` = wildcard, any principal). `permission_level` is
/// the ordinal 1 (view), 2 (update) or 3 (delete); `can_share` allows
/// re-delegation. An expiry, when set, denies from that instant on.
#[derive(Clone, Copy, Debug, PartialEq, Eq, Structural)]
pub struct Role {
    pub file_id: Pubkey,
    pub address: Option<Pubkey>,
    pub permission_level: u8,
    pub can_share: bool,
    pub address_type: AddressType,
    pub expires_at: Option<i64>,
    pub bump: u8,
}

impl Role {
    /// Role records keep their ordinal level within the known range.
    pub open spec fn wf(self) -> bool {
        1 <= self.permission_level <= 3
    }
}

/// A change notification for external cache consumers.
#[derive(Clone, Copy, Debug, PartialEq, Eq, Structural)]
pub struct RolesChanged {
    pub time: i64,
    pub file_id: Pubkey,
}

} // verus!
