//! Replacing a file's metadata. The metadata record must belong to the file;
//! the update itself is reserved to the file authority.

use vstd::prelude::*;

use crate::errors::Errors;
use crate::instructions::update_file::role_grants;
use crate::state::file::File;
use crate::state::metadata::{clone_metadata, FileMetadata, MetadataData};
use crate::state::pubkey::Pubkey;
use crate::state::role::{ActionType, Role};
use crate::utils::file::{allowed_authority, is_authority_or_recovery};
use crate::utils::roles::perform_action;

verus! {

/// The complete decision of a metadata update: the record must belong to the
/// file; the caller must hold update rights on the file; and of those, only
/// the authority itself may rewrite metadata.
pub open spec fn update_file_metadata_check(
    authority: Pubkey,
    file: File,
    file_metadata: FileMetadata,
    role: Option<Role>,
) -> Result<(), Errors> {
    if file_metadata.file_id != file.id {
        Err(Errors::InvalidFileId)
    } else if !(is_authority_or_recovery(authority, file) || role_grants(
        role,
        authority,
        file,
        ActionType::Update,
    )) {
        Err(Errors::InsufficientPermission)
    } else if authority != file.authority {
        Err(Errors::UnauthorizedMetadataUpdate)
    } else {
        Ok(())
    }
}

/// Replaces a file's metadata when [`update_file_metadata_check`] accepts the
/// caller: the record keeps its identity and holds exactly the supplied
/// entries.
pub fn update_file_metadata(
    authority: &Pubkey,
    file: &File,
    file_metadata: &FileMetadata,
    role: &Option<Role>,
    data: &MetadataData,
) -> (r: Result<FileMetadata, Errors>)
    ensures
        match update_file_metadata_check(*authority, *file, *file_metadata, *role) {
            Ok(()) => {
                &&& r matches Ok(fm)
                &&& fm.file_id == file_metadata.file_id
                &&& fm.metadata@ == data.metadata@
                &&& fm.bump == file_metadata.bump
            },
            Err(e) => r == Err::<FileMetadata, Errors>(e),
        },
{
    if file_metadata.file_id != file.id {
        return Err(Errors::InvalidFileId);
    }
    let trusted = crate::utils::file::authority_or_recovery(authority, file);
    let via_role = match role {
        Some(ro) => {
            let own = match ro.address {
                Some(a) => a == *authority && ro.file_id == file.id,
                None => false,
            };
            own && perform_action(ro, ActionType::Update).is_ok()
        },
        None => false,
    };
    if !(trusted || via_role) {
        return Err(Errors::InsufficientPermission);
    }
    if !allowed_authority(authority, &file.authority) {
        return Err(Errors::UnauthorizedMetadataUpdate);
    }
    Ok(
        FileMetadata {
            file_id: file_metadata.file_id,
            metadata: clone_metadata(&data.metadata),
            bump: file_metadata.bump,
        },
    )
}

} // verus!
