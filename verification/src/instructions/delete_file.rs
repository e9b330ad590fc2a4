//! Deleting a file: gated on the authority itself or a delete-capable role
//! for the same file. Roles and rules scoped to the file become orphaned and
//! are reaped independently.

use vstd::prelude::*;

use crate::errors::Errors;
use crate::instructions::update_file::role_grants;
use crate::state::file::File;
use crate::state::pubkey::Pubkey;
use crate::state::role::{ActionType, Role};
use crate::utils::file::allowed_authority;
use crate::utils::roles::perform_action;

verus! {

/// The complete decision of a file deletion: allowed for the authority, or
/// for a holder of a delete-level role for this file.
pub open spec fn delete_file_outcome(authority: Pubkey, file: File, role: Option<Role>) -> Result<
    (),
    Errors,
> {
    if authority == file.authority || role_grants(role, authority, file, ActionType::Delete) {
        Ok(())
    } else {
        Err(Errors::Unauthorized)
    }
}

/// Decides a file deletion, following [`delete_file_outcome`] exactly. The
/// caller destroys the record only on success.
pub fn delete_file(authority: &Pubkey, file: &File, role: &Option<Role>) -> (r: Result<(), Errors>)
    ensures
        r == delete_file_outcome(*authority, *file, *role),
{
    if allowed_authority(authority, &file.authority) {
        return Ok(());
    }
    let via_role = match role {
        Some(ro) => {
            let own = match ro.address {
                Some(a) => a == *authority && ro.file_id == file.id,
                None => false,
            };
            own && perform_action(ro, ActionType::Delete).is_ok()
        },
        None => false,
    };
    if via_role {
        Ok(())
    } else {
        Err(Errors::Unauthorized)
    }
}

} // verus!
