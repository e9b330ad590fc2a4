//! Revoking a granted role. The file authority may revoke freely; anyone else
//! must hold a sharing role for the same file at a level at least the one
//! being revoked — a grantee never revokes above their own standing.

use vstd::prelude::*;

use crate::errors::Errors;
use crate::instructions::assign_role::is_own_role;
use crate::state::file::File;
use crate::state::pubkey::Pubkey;
use crate::state::role::Role;
use crate::utils::file::roles_cache_bumped;

verus! {

/// The complete decision of a role revocation. On success it yields the file
/// with its role-cache timestamp bumped; the caller removes the record.
pub open spec fn delete_assigned_role_outcome(
    signer: Pubkey,
    file: File,
    role_to_delete: Role,
    user_role: Option<Role>,
    now: i64,
) -> Result<File, Errors> {
    if signer == file.authority {
        Ok(roles_cache_bumped(file, now))
    } else {
        match user_role {
            None => Err(Errors::MissingUserRole),
            Some(ur) => {
                if !is_own_role(ur, signer, file) {
                    Err(Errors::InvalidUserRole)
                } else if !ur.can_share {
                    Err(Errors::InsufficientSharePermission)
                } else if ur.permission_level < role_to_delete.permission_level {
                    Err(Errors::CannotDeleteHigherPermissionLevel)
                } else {
                    Ok(roles_cache_bumped(file, now))
                }
            },
        }
    }
}

/// Revokes a granted role, following [`delete_assigned_role_outcome`]
/// exactly. The record itself is removed from storage by the caller only on
/// success.
pub fn delete_assigned_role(
    signer: &Pubkey,
    file: &File,
    role_to_delete: &Role,
    user_role: &Option<Role>,
    now: i64,
) -> (r: Result<File, Errors>)
    ensures
        r == delete_assigned_role_outcome(*signer, *file, *role_to_delete, *user_role, now),
{
    if !(signer == &file.authority) {
        let ur = match user_role {
            Some(ur) => ur,
            None => {
                return Err(Errors::MissingUserRole);
            },
        };
        // The presented role must be the caller's own record for this file.
        let own = match ur.address {
            Some(a) => a == *signer && ur.file_id == file.id,
            None => false,
        };
        if !own {
            return Err(Errors::InvalidUserRole);
        }
        if !ur.can_share {
            return Err(Errors::InsufficientSharePermission);
        }
        if ur.permission_level < role_to_delete.permission_level {
            return Err(Errors::CannotDeleteHigherPermissionLevel);
        }
    }
    let new_file = File {
        id: file.id,
        authority: file.authority,
        recovery: file.recovery,
        bump: file.bump,
        name: file.name.clone(),
        roles_updated_at: now,
        rules_updated_at: file.rules_updated_at,
        cached: file.cached,
        fee: file.fee,
        size: file.size,
        checksum: file.checksum.clone(),
        account_type: file.account_type,
        expires_at: file.expires_at,
    };
    Ok(new_file)
}

} // verus!
