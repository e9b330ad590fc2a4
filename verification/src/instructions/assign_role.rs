//! Granting a role. The file authority may grant freely; anyone else must
//! hold a sharing role for the same file and may only delegate at or below
//! their own level — delegation never escalates.

use vstd::prelude::*;

use crate::errors::Errors;
use crate::state::file::File;
use crate::state::pubkey::Pubkey;
use crate::state::role::{AssignRoleData, Role};
use crate::utils::file::roles_cache_bumped;

verus! {

/// The role record an accepted grant stores.
pub open spec fn granted_role(file: File, data: AssignRoleData, bump: u8) -> Role {
    Role {
        file_id: file.id,
        address: data.address,
        permission_level: data.permission_level,
        can_share: data.can_share,
        address_type: data.address_type,
        expires_at: data.expires_at,
        bump,
    }
}

/// Whether `user_role` is the role record of `contributor` for `file`: the
/// record stored under the caller's own address and the file's id.
pub open spec fn is_own_role(user_role: Role, contributor: Pubkey, file: File) -> bool {
    user_role.address == Some(contributor) && user_role.file_id == file.id
}

/// The complete decision of a role grant: the ordinal level must be in range;
/// the authority grants freely; any other caller must present their own
/// sharing role and may not grant a level above their own, nor the share flag
/// they lack. On success it yields the stored role and the file with its
/// role-cache timestamp bumped.
pub open spec fn assign_role_outcome(
    contributor: Pubkey,
    file: File,
    user_role: Option<Role>,
    data: AssignRoleData,
    now: i64,
    bump: u8,
) -> Result<(Role, File), Errors> {
    if !(1 <= data.permission_level <= 3) {
        Err(Errors::InvalidPermissionLevel)
    } else if contributor == file.authority {
        Ok((granted_role(file, data, bump), roles_cache_bumped(file, now)))
    } else {
        match user_role {
            None => Err(Errors::MissingUserRole),
            Some(ur) => {
                if !is_own_role(ur, contributor, file) {
                    Err(Errors::InvalidUserRole)
                } else if !ur.can_share {
                    Err(Errors::InsufficientSharePermission)
                } else if data.permission_level > ur.permission_level {
                    Err(Errors::CannotGrantHigherPermissionLevel)
                } else if data.can_share && !ur.can_share {
                    Err(Errors::CannotGrantSharePermission)
                } else {
                    Ok((granted_role(file, data, bump), roles_cache_bumped(file, now)))
                }
            },
        }
    }
}

/// Grants (or overwrites) a role, following [`assign_role_outcome`] exactly.
/// A granted role is well-formed, and a grant by a non-authority never
/// exceeds the granting role's own level or share flag.
pub fn assign_role(
    contributor: &Pubkey,
    file: &File,
    user_role: &Option<Role>,
    data: &AssignRoleData,
    now: i64,
    bump: u8,
) -> (r: Result<(Role, File), Errors>)
    ensures
        r == assign_role_outcome(*contributor, *file, *user_role, *data, now, bump),
        r matches Ok(pair) ==> pair.0.wf(),
{
    if data.permission_level < 1 || data.permission_level > 3 {
        return Err(Errors::InvalidPermissionLevel);
    }
    if !(contributor == &file.authority) {
        let ur = match user_role {
            Some(ur) => ur,
            None => {
                return Err(Errors::MissingUserRole);
            },
        };
        // The presented role must be the caller's own record for this file:
        // the one stored under (caller address, file id).
        let own = match ur.address {
            Some(a) => a == *contributor && ur.file_id == file.id,
            None => false,
        };
        if !own {
            return Err(Errors::InvalidUserRole);
        }
        if !ur.can_share {
            return Err(Errors::InsufficientSharePermission);
        }
        if data.permission_level > ur.permission_level {
            return Err(Errors::CannotGrantHigherPermissionLevel);
        }
        if data.can_share && !ur.can_share {
            return Err(Errors::CannotGrantSharePermission);
        }
    }
    let role = Role {
        file_id: file.id,
        address: data.address,
        permission_level: data.permission_level,
        can_share: data.can_share,
        address_type: data.address_type,
        expires_at: data.expires_at,
        bump,
    };
    let new_file = File {
        id: file.id,
        authority: file.authority,
        recovery: file.recovery,
        bump: file.bump,
        name: file.name.clone(),
        roles_updated_at: now,
        rules_updated_at: file.rules_updated_at,
        cached: file.cached,
        fee: file.fee,
        size: file.size,
        checksum: file.checksum.clone(),
        account_type: file.account_type,
        expires_at: file.expires_at,
    };
    Ok((role, new_file))
}

/// Law: delegation is monotone. A grant accepted from a caller who is not the
/// file authority never exceeds the delegator's own capability: its level is
/// at most theirs, and it carries the share flag only if theirs does.
pub proof fn lemma_delegation_monotone(
    contributor: Pubkey,
    file: File,
    user_role: Option<Role>,
    data: AssignRoleData,
    now: i64,
    bump: u8,
)
    requires
        contributor != file.authority,
        assign_role_outcome(contributor, file, user_role, data, now, bump) is Ok,
    ensures
        ({
            let granted = assign_role_outcome(contributor, file, user_role, data, now, bump)
                ->Ok_0.0;
            &&& user_role matches Some(ur) && granted.permission_level <= ur.permission_level
                && (granted.can_share ==> ur.can_share) && ur.can_share
        }),
{
}

} // verus!
