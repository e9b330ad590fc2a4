//! Helpers on role grants: the deterministic key component of a role's
//! address, and the ordinal permission check.

use vstd::prelude::*;
use vstd::bytes::{spec_u64_to_le_bytes, u64_to_le_bytes};

use crate::errors::Errors;
use crate::state::pubkey::Pubkey;
use crate::state::role::{ActionType, Role};

verus! {

/// The bytes a role address contributes to the role's deterministic storage
/// key: the address itself, or the wildcard byte `*` when the grant applies to
/// any principal.
pub open spec fn address_seed(address: Option<Pubkey>) -> Seq<u8> {
    match address {
        None => seq![42u8],
        Some(pk) => spec_u64_to_le_bytes(pk.value),
    }
}

/// Renders the key component of a role address (`*` for the wildcard).
pub fn address_or_wildcard(address: &Option<Pubkey>) -> (r: Vec<u8>)
    ensures
        r@ == address_seed(*address),
{
    match address {
        None => {
            let mut v: Vec<u8> = Vec::new();
            v.push(42u8);
            assert(v@ =~= seq![42u8]);
            v
        },
        Some(pk) => u64_to_le_bytes(pk.value),
    }
}

/// Checks that a role's ordinal level grants `action`: level 1 views, level 2
/// also updates, level 3 also deletes.
pub fn perform_action(user_role: &Role, action: ActionType) -> (r: Result<(), Errors>)
    ensures
        r == (if user_role.permission_level >= action.spec_required_level() {
            Ok::<(), Errors>(())
        } else {
            Err::<(), Errors>(Errors::InsufficientPermission)
        }),
{
    if user_role.permission_level >= action.required_level() {
        Ok(())
    } else {
        Err(Errors::InsufficientPermission)
    }
}

} // verus!
