//! Deleting a rule: like creating one, a meta-operation that must be
//! authorized on the coarse namespace axis and on the specific
//! resource/action axis by two independent engine evaluations.

use vstd::prelude::*;

use crate::errors::Errors;
use crate::instructions::allowed::{allowed, allowed_outcome, AllowedRule, AllowedRuleView,
    CollectionMembership, TokenOwnership};
use crate::state::file::{File, Seed};
use crate::state::pubkey::Pubkey;
use crate::state::role::Role;
use crate::state::rule::{Namespaces, Rule};
use crate::utils::file::{fee_owed, rules_cache_bumped};
use crate::utils::strings::{u8_decimal, u8_to_string};

verus! {

/// The namespace-axis request for deleting `rule`: the namespace of the rule
/// being removed stands, spelled in decimal, as the resource.
pub open spec fn delete_ns_axis_view(file: File, rule: Rule) -> AllowedRuleView {
    AllowedRuleView {
        file_id: file.id,
        namespace: Namespaces::DeleteRuleNSRole.spec_value(),
        resource: u8_decimal(rule.namespace),
        permission_level: rule.permission_level,
    }
}

/// The resource/action-axis request for deleting `rule`.
pub open spec fn delete_resource_axis_view(file: File, rule: Rule) -> AllowedRuleView {
    AllowedRuleView {
        file_id: file.id,
        namespace: Namespaces::DeleteRuleResourcePerm.spec_value(),
        resource: rule.resource@,
        permission_level: rule.permission_level,
    }
}

/// The complete decision of a rule deletion: the two independent engine
/// evaluations, each charging its own fee. On success it yields the file
/// with its rule-cache timestamp bumped, and the accumulator and payer
/// balance after both charges.
pub open spec fn delete_rule_outcome(
    signer: Pubkey,
    file: File,
    role: Option<Role>,
    rule_ns: Option<Rule>,
    rule_rp: Option<Rule>,
    token: Option<TokenOwnership>,
    membership: Option<CollectionMembership>,
    seed: Option<Seed>,
    payer_balance: u64,
    rule: Rule,
    now: i64,
    rebate: u64,
) -> Result<(File, Option<Seed>, u64), Errors> {
    match allowed_outcome(
        signer,
        file,
        role,
        rule_ns,
        token,
        membership,
        seed,
        payer_balance,
        delete_ns_axis_view(file, rule),
        now,
        rebate,
    ) {
        Err(e) => Err(e),
        Ok((charge1, seed1)) => match allowed_outcome(
            signer,
            file,
            role,
            rule_rp,
            token,
            membership,
            seed1,
            (payer_balance - charge1) as u64,
            delete_resource_axis_view(file, rule),
            now,
            rebate,
        ) {
            Err(e) => Err(e),
            Ok((charge2, seed2)) => Ok(
                (
                    rules_cache_bumped(file, now),
                    seed2,
                    (payer_balance - charge1 - charge2) as u64,
                ),
            ),
        },
    }
}

/// Deletes `rule` after proving the caller's authority on both the namespace
/// axis and the resource/action axis. The result and every state change
/// follow [`delete_rule_outcome`] exactly; on an error nothing is changed.
/// The caller removes the record from storage only on success.
pub fn delete_rule(
    signer: &Pubkey,
    file: &File,
    role: &Option<Role>,
    rule_ns: &Option<Rule>,
    rule_rp: &Option<Rule>,
    token: &Option<TokenOwnership>,
    membership: &Option<CollectionMembership>,
    seed: &mut Option<Seed>,
    payer_balance: &mut u64,
    rule: &Rule,
    now: i64,
    rebate: u64,
) -> (r: Result<File, Errors>)
    requires
        (*old(seed) matches Some(s) ==> s.balance + fee_owed(*file) + fee_owed(*file)
            <= u64::MAX),
    ensures
        match delete_rule_outcome(
            *signer,
            *file,
            *role,
            *rule_ns,
            *rule_rp,
            *token,
            *membership,
            *old(seed),
            *old(payer_balance),
            *rule,
            now,
            rebate,
        ) {
            Ok((new_file, new_seed, new_payer)) => {
                &&& r == Ok::<File, Errors>(new_file)
                &&& *final(seed) == new_seed
                &&& *final(payer_balance) == new_payer
            },
            Err(e) => {
                &&& r == Err::<File, Errors>(e)
                &&& *final(seed) == *old(seed)
                &&& *final(payer_balance) == *old(payer_balance)
            },
        },
{
    // Both engine evaluations run on scratch state, committed only when the
    // whole operation succeeds.
    let mut seed_local = *seed;
    let mut payer_local = *payer_balance;
    let req_ns = AllowedRule {
        file_id: file.id,
        namespace: Namespaces::DeleteRuleNSRole.value(),
        resource: u8_to_string(rule.namespace),
        permission_level: rule.permission_level,
    };
    match allowed(
        signer,
        file,
        role,
        rule_ns,
        token,
        membership,
        &mut seed_local,
        &mut payer_local,
        &req_ns,
        now,
        rebate,
    ) {
        Err(e) => {
            return Err(e);
        },
        Ok(()) => {},
    }
    let req_rp = AllowedRule {
        file_id: file.id,
        namespace: Namespaces::DeleteRuleResourcePerm.value(),
        resource: rule.resource.clone(),
        permission_level: rule.permission_level,
    };
    match allowed(
        signer,
        file,
        role,
        rule_rp,
        token,
        membership,
        &mut seed_local,
        &mut payer_local,
        &req_rp,
        now,
        rebate,
    ) {
        Err(e) => {
            return Err(e);
        },
        Ok(()) => {},
    }
    *seed = seed_local;
    *payer_balance = payer_local;
    let new_file = File {
        id: file.id,
        authority: file.authority,
        recovery: file.recovery,
        bump: file.bump,
        name: file.name.clone(),
        roles_updated_at: file.roles_updated_at,
        rules_updated_at: now,
        cached: file.cached,
        fee: file.fee,
        size: file.size,
        checksum: file.checksum.clone(),
        account_type: file.account_type,
        expires_at: file.expires_at,
    };
    Ok(new_file)
}

} // verus!
