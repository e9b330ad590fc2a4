//! Bumping a file's cache-invalidation timestamps, so external readers can
//! track when roles or rules last changed. Reserved to the authority.

use vstd::prelude::*;

use crate::errors::Errors;
use crate::state::file::{CacheUpdated, File};
use crate::state::pubkey::Pubkey;
use crate::utils::file::{roles_cache_bumped, rules_cache_bumped};

verus! {

/// The complete decision of a cache bump: the authority picks which of the
/// two timestamps moves to `now` (the roles one for the roles selector, the
/// rules one for anything else).
pub open spec fn update_cache_outcome(
    authority: Pubkey,
    file: File,
    cache_updated: u8,
    now: i64,
) -> Result<File, Errors> {
    if authority != file.authority {
        Err(Errors::Unauthorized)
    } else if cache_updated == CacheUpdated::Roles.spec_value() {
        Ok(roles_cache_bumped(file, now))
    } else {
        Ok(rules_cache_bumped(file, now))
    }
}

/// Bumps one cache timestamp, following [`update_cache_outcome`] exactly.
pub fn update_cache(authority: &Pubkey, file: &File, cache_updated: u8, now: i64) -> (r: Result<
    File,
    Errors,
>)
    ensures
        r == update_cache_outcome(*authority, *file, cache_updated, now),
{
    if !(authority == &file.authority) {
        return Err(Errors::Unauthorized);
    }
    let roles_selected = cache_updated == CacheUpdated::Roles.value();
    let new_file = File {
        id: file.id,
        authority: file.authority,
        recovery: file.recovery,
        bump: file.bump,
        name: file.name.clone(),
        roles_updated_at: if roles_selected {
            now
        } else {
            file.roles_updated_at
        },
        rules_updated_at: if roles_selected {
            file.rules_updated_at
        } else {
            now
        },
        cached: file.cached,
        fee: file.fee,
        size: file.size,
        checksum: file.checksum.clone(),
        account_type: file.account_type,
        expires_at: file.expires_at,
    };
    Ok(new_file)
}

} // verus!
