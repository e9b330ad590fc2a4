//! Updating a file. The update is gated on the authority, the recovery
//! identity, or an update-capable role for the same file; reassigning the
//! authority itself is reserved to the authority and recovery identities.

use vstd::prelude::*;

use crate::errors::Errors;
use crate::instructions::assign_role::is_own_role;
use crate::state::file::{File, UpdateFileData};
use crate::state::pubkey::Pubkey;
use crate::state::role::{ActionType, Role};
use crate::utils::file::is_authority_or_recovery;
use crate::utils::roles::perform_action;

verus! {

/// Whether `role` is a role of `signer` for `file` granting `action`.
pub open spec fn role_grants(role: Option<Role>, signer: Pubkey, file: File, action: ActionType) -> bool {
    match role {
        Some(ro) => is_own_role(ro, signer, file) && ro.permission_level
            >= action.spec_required_level(),
        None => false,
    }
}

/// The file record an accepted update stores: strings and authority fields
/// replaced, optional fields kept when absent, the rest untouched.
pub open spec fn updated_file(file: File, data: UpdateFileData) -> File {
    File {
        authority: data.authority,
        recovery: data.recovery,
        name: data.name,
        fee: if data.fee is Some {
            data.fee
        } else {
            file.fee
        },
        size: match data.size {
            Some(s) => s,
            None => file.size,
        },
        checksum: data.checksum,
        expires_at: match data.expires_at {
            Some(e) => e,
            None => file.expires_at,
        },
        ..file
    }
}

/// The complete decision of a file update.
pub open spec fn update_file_outcome(
    authority: Pubkey,
    file: File,
    role: Option<Role>,
    data: UpdateFileData,
) -> Result<File, Errors> {
    if !(is_authority_or_recovery(authority, file) || role_grants(
        role,
        authority,
        file,
        ActionType::Update,
    )) {
        Err(Errors::InsufficientPermission)
    } else if data.authority != file.authority && !is_authority_or_recovery(authority, file) {
        Err(Errors::UnauthorizedAuthorityUpdate)
    } else if data.name@.len() > 16 {
        Err(Errors::StringTooLong)
    } else if data.checksum@.len() > 32 {
        Err(Errors::StringTooLong)
    } else {
        Ok(updated_file(file, data))
    }
}

/// Updates a file, following [`update_file_outcome`] exactly.
pub fn update_file(
    authority: &Pubkey,
    file: &File,
    role: &Option<Role>,
    data: &UpdateFileData,
) -> (r: Result<File, Errors>)
    ensures
        r == update_file_outcome(*authority, *file, *role, *data),
{
    let trusted = crate::utils::file::authority_or_recovery(authority, file);
    let via_role = match role {
        Some(ro) => {
            let own = match ro.address {
                Some(a) => a == *authority && ro.file_id == file.id,
                None => false,
            };
            own && perform_action(ro, ActionType::Update).is_ok()
        },
        None => false,
    };
    if !(trusted || via_role) {
        return Err(Errors::InsufficientPermission);
    }
    // Only the authority or the recovery identity may hand the authority on.
    if data.authority != file.authority && !trusted {
        return Err(Errors::UnauthorizedAuthorityUpdate);
    }
    let name = match crate::utils::strings::validate_string_len(&data.name, 0, 16) {
        Ok(s) => s,
        Err(e) => {
            return Err(e);
        },
    };
    let checksum = match crate::utils::strings::validate_string_len(&data.checksum, 0, 32) {
        Ok(s) => s,
        Err(e) => {
            return Err(e);
        },
    };
    let new_file = File {
        id: file.id,
        authority: data.authority,
        recovery: data.recovery,
        bump: file.bump,
        name,
        roles_updated_at: file.roles_updated_at,
        rules_updated_at: file.rules_updated_at,
        cached: file.cached,
        fee: match data.fee {
            Some(f) => Some(f),
            None => file.fee,
        },
        size: match data.size {
            Some(s) => s,
            None => file.size,
        },
        checksum,
        account_type: file.account_type,
        expires_at: match data.expires_at {
            Some(e) => e,
            None => file.expires_at,
        },
    };
    Ok(new_file)
}

} // verus!
