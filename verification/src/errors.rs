//! Every failure the library reports. Policy denials are folded into the
//! single generic [`Errors::Unauthorized`] so a probing caller learns nothing
//! about which sub-check failed; structural validation failures are specific.

use vstd::prelude::*;

verus! {

#[derive(Clone, Copy, Debug, PartialEq, Eq, Structural)]
pub enum Errors {
    /// Only the current authority or recovery account can update the file authority.
    UnauthorizedAuthorityUpdate,
    /// Role, resource or permission must be between 1 and 16 alphanumeric characters.
    InvalidRule,
    /// Role must be between 1 and 16 alphanumeric characters.
    InvalidRole,
    /// The provided string is too short.
    StringTooShort,
    /// The provided string is too long.
    StringTooLong,
    /// The user does not have enough privileges to perform this action.
    Unauthorized,
    /// The file id of the request does not match the file record.
    InvalidFileID,
    /// Address type must be 'Wallet', 'Nft', 'Collection' or a wildcard '*'.
    InvalidAddressType,
    /// Namespace must be a decimal number in 0..=255 or a wildcard '*'.
    InvalidNamespace,
    /// The gateway file id is missing.
    MissingSolGatewayFileId,
    /// The fee-accumulator (seed) account is missing.
    MissingSeedAccount,
    /// Only the program authority can perform this action.
    UnauthorizedProgramAuthority,
    /// Insufficient funds for the fee transfer.
    InsufficientFunds,
    /// The provided file id does not match the metadata account.
    InvalidFileId,
    /// Unauthorized metadata update.
    UnauthorizedMetadataUpdate,
    /// The role held by the caller has too low a permission level.
    InsufficientPermission,
    /// The caller is not the authority and presented no role of their own.
    MissingUserRole,
    /// The presented role is not the caller's role for this file.
    InvalidUserRole,
    /// The caller's role does not carry the re-delegation (share) flag.
    InsufficientSharePermission,
    /// A delegated role may not exceed the delegator's permission level.
    CannotGrantHigherPermissionLevel,
    /// Only a sharer may grant the share flag.
    CannotGrantSharePermission,
    /// A role holder may not delete a role above their own level.
    CannotDeleteHigherPermissionLevel,
    /// Role permission levels are the ordinals 1 (view), 2 (update), 3 (delete).
    InvalidPermissionLevel,
    /// Metadata was provided but no metadata account accompanies the file.
    FileMetadataAccountNotFound,
    /// A metadata account was supplied although no metadata was provided.
    UnexpectedMetadataAccount,
}

impl Errors {
    /// A human-readable description of the error.
    pub fn message(&self) -> String {
        match self {
            Errors::UnauthorizedAuthorityUpdate => "Only current Authority or Recovery accounts can update the File authority".to_owned(),
            Errors::InvalidRule => "Role, Resource or Permission must be between 1 and 16 alphanumeric characters long".to_owned(),
            Errors::InvalidRole => "Role must be between 1 and 16 alphanumeric characters long".to_owned(),
            Errors::StringTooShort => "The provided string is too short".to_owned(),
            Errors::StringTooLong => "The provided string is too long".to_owned(),
            Errors::Unauthorized => "The user does not have enough privileges to perform this action".to_owned(),
            Errors::InvalidFileID => "The FILE ID does not match the one defined in the program".to_owned(),
            Errors::InvalidAddressType => "Invalid address type, must be either 'Wallet', 'Nft', 'Collection' or a wildcard '*'".to_owned(),
            Errors::InvalidNamespace => "Invalid namespace, must be either an u8 number (0-255) or a wildcard '*'".to_owned(),
            Errors::MissingSolGatewayFileId => "The gateway FILE ID is missing".to_owned(),
            Errors::MissingSeedAccount => "The Gateway Seed account is missing".to_owned(),
            Errors::UnauthorizedProgramAuthority => "Only program authority can perform this action".to_owned(),
            Errors::InsufficientFunds => "Insufficient funds for transaction".to_owned(),
            Errors::InvalidFileId => "The provided file ID does not match the metadata account".to_owned(),
            Errors::UnauthorizedMetadataUpdate => "Unauthorized metadata update".to_owned(),
            Errors::InsufficientPermission => "The role does not grant a sufficient permission level".to_owned(),
            Errors::MissingUserRole => "The caller is not the authority and presented no role".to_owned(),
            Errors::InvalidUserRole => "The presented role is not the caller's role for this file".to_owned(),
            Errors::InsufficientSharePermission => "The caller's role does not allow sharing".to_owned(),
            Errors::CannotGrantHigherPermissionLevel => "Cannot grant a higher permission level than held".to_owned(),
            Errors::CannotGrantSharePermission => "Cannot grant the share permission without holding it".to_owned(),
            Errors::CannotDeleteHigherPermissionLevel => "Cannot delete a role of a higher permission level".to_owned(),
            Errors::InvalidPermissionLevel => "Permission level must be between 1 and 3".to_owned(),
            Errors::FileMetadataAccountNotFound => "Metadata was provided but the metadata account is missing".to_owned(),
            Errors::UnexpectedMetadataAccount => "No metadata was provided yet a metadata account was supplied".to_owned(),
        }
    }
}

} // verus!
