//! Creating a file. The creator becomes its authority; the fee starts unset;
//! both cache timestamps start at the creation instant. Metadata is stored
//! exactly when a metadata record accompanies the file.

use vstd::prelude::*;

use crate::errors::Errors;
use crate::state::file::{AccountTypes, File, FileData};
use crate::state::metadata::{clone_metadata, FileMetadata};
use crate::state::pubkey::Pubkey;
use crate::utils::strings::validate_string_len;

verus! {

/// The file record an accepted creation stores.
pub open spec fn created_file(contributor: Pubkey, data: FileData, now: i64, bump: u8) -> File {
    File {
        id: data.id,
        authority: contributor,
        recovery: data.recovery,
        bump,
        name: data.name,
        roles_updated_at: now,
        rules_updated_at: now,
        cached: data.cached,
        fee: None,
        size: data.size,
        checksum: data.checksum,
        account_type: AccountTypes::Basic.spec_value(),
        expires_at: data.expires_at,
    }
}

/// The complete decision of a file creation: the name and checksum must fit
/// their bounds, and metadata is accepted exactly when a metadata record is
/// there to hold it.
pub open spec fn initialize_files_outcome(
    contributor: Pubkey,
    data: FileData,
    metadata_account_present: bool,
    now: i64,
    bump: u8,
) -> Result<File, Errors> {
    if data.name@.len() > 32 {
        Err(Errors::StringTooLong)
    } else if data.checksum@.len() > 32 {
        Err(Errors::StringTooLong)
    } else if data.metadata is Some && !metadata_account_present {
        Err(Errors::FileMetadataAccountNotFound)
    } else if data.metadata is None && metadata_account_present {
        Err(Errors::UnexpectedMetadataAccount)
    } else {
        Ok(created_file(contributor, data, now, bump))
    }
}

/// Creates a file (and its metadata record, when provided), following
/// [`initialize_files_outcome`] exactly: the stored metadata record carries
/// the supplied entries for the new file. `metadata_account_present` says
/// whether the caller supplied storage for metadata.
pub fn initialize_files(
    contributor: &Pubkey,
    data: &FileData,
    metadata_account_present: bool,
    now: i64,
    bump: u8,
    metadata_bump: u8,
) -> (r: Result<(File, Option<FileMetadata>), Errors>)
    ensures
        match initialize_files_outcome(*contributor, *data, metadata_account_present, now, bump) {
            Ok(file) => {
                &&& r matches Ok(pair)
                &&& pair.0 == file
                &&& match data.metadata {
                    Some(entries) => pair.1 matches Some(fm) && fm.file_id == data.id
                        && fm.metadata@ == entries@ && fm.bump == metadata_bump,
                    None => pair.1 is None,
                }
            },
            Err(e) => r == Err::<(File, Option<FileMetadata>), Errors>(e),
        },
{
    let name = match validate_string_len(&data.name, 0, 32) {
        Ok(s) => s,
        Err(e) => {
            return Err(e);
        },
    };
    let checksum = match validate_string_len(&data.checksum, 0, 32) {
        Ok(s) => s,
        Err(e) => {
            return Err(e);
        },
    };
    let file_metadata = match &data.metadata {
        Some(entries) => {
            if !metadata_account_present {
                return Err(Errors::FileMetadataAccountNotFound);
            }
            Some(
                FileMetadata {
                    file_id: data.id,
                    metadata: clone_metadata(entries),
                    bump: metadata_bump,
                },
            )
        },
        None => {
            if metadata_account_present {
                return Err(Errors::UnexpectedMetadataAccount);
            }
            None
        },
    };
    let file = File {
        id: data.id,
        authority: *contributor,
        recovery: data.recovery,
        bump,
        name,
        roles_updated_at: now,
        rules_updated_at: now,
        cached: data.cached,
        fee: None,
        size: data.size,
        checksum,
        account_type: AccountTypes::Basic.value(),
        expires_at: data.expires_at,
    };
    Ok((file, file_metadata))
}

} // verus!
