//! Authority checks and fee computation for a file.

use vstd::prelude::*;

use crate::state::file::{AccountTypes, File};
use crate::state::pubkey::Pubkey;

verus! {

/// Whether `signer` is the authority itself.
pub fn allowed_authority(signer: &Pubkey, authority: &Pubkey) -> (r: bool)
    ensures
        r == (signer == authority),
{
    signer == authority
}

/// The identities a file trusts unconditionally: its authority and, when set,
/// its recovery identity.
pub open spec fn is_authority_or_recovery(signer: Pubkey, file: File) -> bool {
    signer == file.authority || file.recovery == Some(signer)
}

/// Whether `signer` is the file's authority or its recovery identity.
pub fn authority_or_recovery(signer: &Pubkey, file: &File) -> (r: bool)
    ensures
        r == is_authority_or_recovery(*signer, *file),
{
    if allowed_authority(signer, &file.authority) {
        true
    } else {
        match file.recovery {
            Some(recovery) => allowed_authority(signer, &recovery),
            None => false,
        }
    }
}

/// The fee a file charges per authorized call: its configured fee, or zero
/// when none is set or the file's class is fee-exempt.
pub open spec fn fee_owed(file: File) -> u64 {
    if file.account_type == AccountTypes::Free.spec_value() {
        0
    } else {
        match file.fee {
            Some(f) => f,
            None => 0,
        }
    }
}

/// Looks up the fee owed per call for `file`.
pub fn get_fee(file: &File) -> (r: u64)
    ensures
        r == fee_owed(*file),
{
    if file.account_type == AccountTypes::Free.value() {
        0
    } else {
        match file.fee {
            Some(f) => f,
            None => 0,
        }
    }
}

/// The file with its rule-cache timestamp bumped, as rule mutations leave it.
pub open spec fn rules_cache_bumped(file: File, now: i64) -> File {
    File { rules_updated_at: now, ..file }
}

/// The file with its role-cache timestamp bumped, as role mutations leave it.
pub open spec fn roles_cache_bumped(file: File, now: i64) -> File {
    File { roles_updated_at: now, ..file }
}

/// The fee after the one-time storage rebate, floored at zero.
pub open spec fn rebated_fee(fee: u64, rebate: u64) -> u64 {
    if fee >= rebate {
        (fee - rebate) as u64
    } else {
        0
    }
}

/// Deducts the accumulator's storage-reservation cost from the fee charged on
/// a principal's first call, so the principal is not double-charged for the
/// account being created for them.
pub fn subtract_rent_exemption_from_fee(fee: u64, rebate: u64) -> (r: u64)
    ensures
        r == rebated_fee(fee, rebate),
{
    if fee >= rebate {
        fee - rebate
    } else {
        0
    }
}

} // verus!
