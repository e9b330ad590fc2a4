//! Creating a rule: a meta-operation on the policy itself. The caller must be
//! authorized on two independent axes — the coarse namespace axis and the
//! specific resource/action axis — by two engine evaluations with different
//! requests, so that neither grant alone can escalate privileges.

use vstd::prelude::*;
use vstd::string::StringExecFns;

use crate::errors::Errors;
use crate::instructions::allowed::{allowed, allowed_outcome, AllowedRule, AllowedRuleView,
    CollectionMembership, TokenOwnership};
use crate::state::file::{File, Seed};
use crate::state::pubkey::Pubkey;
use crate::state::role::Role;
use crate::state::rule::{Namespaces, Rule, RuleData};
use crate::utils::file::{fee_owed, rules_cache_bumped};
use crate::utils::strings::{is_star, is_wildcard, u8_decimal, u8_to_string, valid_rule_string,
    valid_u8_decimal};
use crate::utils::strings::valid_rules;
use crate::utils::rules::validate_ns_permission;

verus! {

/// The resources a rule in the role-assignment namespaces may name: one of
/// the address kinds, or the wildcard.
pub open spec fn valid_address_type_resource(s: Seq<char>) -> bool {
    ||| s == "Wallet"@
    ||| s == "Nft"@
    ||| s == "Collection"@
    ||| is_star(s)
}

/// The namespace-axis request for mutating a rule of `data`'s namespace: the
/// namespace being touched stands, spelled in decimal, as the resource.
pub open spec fn ns_axis_view(file: File, data: RuleData, meta_ns: u8) -> AllowedRuleView {
    AllowedRuleView {
        file_id: file.id,
        namespace: meta_ns,
        resource: u8_decimal(data.namespace),
        permission_level: data.permission_level,
    }
}

/// The resource/action-axis request for mutating a rule with `data`'s
/// resource.
pub open spec fn resource_axis_view(file: File, data: RuleData, meta_ns: u8) -> AllowedRuleView {
    AllowedRuleView {
        file_id: file.id,
        namespace: meta_ns,
        resource: data.resource@,
        permission_level: data.permission_level,
    }
}

/// The rule record an accepted creation stores.
pub open spec fn new_rule(file: File, data: RuleData, bump: u8) -> Rule {
    Rule {
        file_id: file.id,
        namespace: data.namespace,
        permission_level: data.permission_level,
        resource: data.resource,
        permission: data.permission,
        expires_at: data.expires_at,
        bump,
    }
}

/// The complete decision of a rule creation: structural validation first,
/// then the two independent engine evaluations, each charging its own fee.
/// On success it yields the stored rule, the file with its rule cache
/// timestamp bumped, and the accumulator and payer balance after both
/// charges.
pub open spec fn add_rule_outcome(
    signer: Pubkey,
    file: File,
    role: Option<Role>,
    rule_ns: Option<Rule>,
    rule_rp: Option<Rule>,
    token: Option<TokenOwnership>,
    membership: Option<CollectionMembership>,
    seed: Option<Seed>,
    payer_balance: u64,
    data: RuleData,
    now: i64,
    rebate: u64,
    bump: u8,
) -> Result<(Rule, File, Option<Seed>, u64), Errors> {
    if !(valid_rule_string(data.resource@) && valid_rule_string(data.permission@)) {
        Err(Errors::InvalidRule)
    } else if !(1 <= data.permission_level <= 3) {
        Err(Errors::InvalidPermissionLevel)
    } else if Namespaces::AssignRole.spec_value() <= data.namespace
        <= Namespaces::DeleteAssignRole.spec_value() && !valid_address_type_resource(
        data.resource@,
    ) {
        Err(Errors::InvalidAddressType)
    } else if (data.namespace == Namespaces::AddRuleNSRole.spec_value() || data.namespace
        == Namespaces::DeleteRuleNSRole.spec_value()) && !(is_star(data.resource@)
        || valid_u8_decimal(data.resource@)) {
        Err(Errors::InvalidNamespace)
    } else {
        match allowed_outcome(
            signer,
            file,
            role,
            rule_ns,
            token,
            membership,
            seed,
            payer_balance,
            ns_axis_view(file, data, Namespaces::AddRuleNSRole.spec_value()),
            now,
            rebate,
        ) {
            Err(e) => Err(e),
            Ok((charge1, seed1)) => match allowed_outcome(
                signer,
                file,
                role,
                rule_rp,
                token,
                membership,
                seed1,
                (payer_balance - charge1) as u64,
                resource_axis_view(file, data, Namespaces::AddRuleResourcePerm.spec_value()),
                now,
                rebate,
            ) {
                Err(e) => Err(e),
                Ok((charge2, seed2)) => Ok(
                    (
                        new_rule(file, data, bump),
                        rules_cache_bumped(file, now),
                        seed2,
                        (payer_balance - charge1 - charge2) as u64,
                    ),
                ),
            },
        }
    }
}

/// Checks whether `s` names an address kind or the wildcard.
fn check_address_type_resource(s: &String) -> (r: bool)
    ensures
        r == valid_address_type_resource(s@),
{
    let wallet = String::from_str("Wallet");
    let nft = String::from_str("Nft");
    let collection = String::from_str("Collection");
    s.eq(&wallet) || s.eq(&nft) || s.eq(&collection) || is_wildcard(s.as_str())
}

/// Creates a rule after validating it and proving the caller's authority on
/// both the namespace axis and the resource/action axis. The result and
/// every state change follow [`add_rule_outcome`] exactly; on an error
/// nothing is changed.
pub fn add_rule(
    signer: &Pubkey,
    file: &File,
    role: &Option<Role>,
    rule_ns: &Option<Rule>,
    rule_rp: &Option<Rule>,
    token: &Option<TokenOwnership>,
    membership: &Option<CollectionMembership>,
    seed: &mut Option<Seed>,
    payer_balance: &mut u64,
    data: &RuleData,
    now: i64,
    rebate: u64,
    bump: u8,
) -> (r: Result<(Rule, File), Errors>)
    requires
        (*old(seed) matches Some(s) ==> s.balance + fee_owed(*file) + fee_owed(*file)
            <= u64::MAX),
    ensures
        match add_rule_outcome(
            *signer,
            *file,
            *role,
            *rule_ns,
            *rule_rp,
            *token,
            *membership,
            *old(seed),
            *old(payer_balance),
            *data,
            now,
            rebate,
            bump,
        ) {
            Ok((rule, new_file, new_seed, new_payer)) => {
                &&& r == Ok::<(Rule, File), Errors>((rule, new_file))
                &&& *final(seed) == new_seed
                &&& *final(payer_balance) == new_payer
            },
            Err(e) => {
                &&& r == Err::<(Rule, File), Errors>(e)
                &&& *final(seed) == *old(seed)
                &&& *final(payer_balance) == *old(payer_balance)
            },
        },
        r matches Ok(pair) ==> pair.0.wf(),
{
    // Structural validation precedes authorization: its failures are caller
    // mistakes, reported specifically.
    if !valid_rules(&data.resource, &data.permission) {
        return Err(Errors::InvalidRule);
    }
    if data.permission_level < 1 || data.permission_level > 3 {
        return Err(Errors::InvalidPermissionLevel);
    }
    // A rule in the role-assignment namespaces constrains which address kinds
    // may be granted to, so its resource must name one.
    if data.namespace >= Namespaces::AssignRole.value() && data.namespace
        <= Namespaces::DeleteAssignRole.value() {
        if !check_address_type_resource(&data.resource) {
            return Err(Errors::InvalidAddressType);
        }
    }
    // A rule in the rule-mutation namespaces constrains which namespaces may
    // be touched, so its resource must encode one (or be the wildcard).
    if data.namespace == Namespaces::AddRuleNSRole.value() || data.namespace
        == Namespaces::DeleteRuleNSRole.value() {
        match validate_ns_permission(&data.resource) {
            Err(e) => {
                return Err(e);
            },
            Ok(()) => {},
        }
    }
    // Both engine evaluations run on scratch state, committed only when the
    // whole operation succeeds: an error leaves nothing half-applied.
    let mut seed_local = *seed;
    let mut payer_local = *payer_balance;
    let req_ns = AllowedRule {
        file_id: file.id,
        namespace: Namespaces::AddRuleNSRole.value(),
        resource: u8_to_string(data.namespace),
        permission_level: data.permission_level,
    };
    match allowed(
        signer,
        file,
        role,
        rule_ns,
        token,
        membership,
        &mut seed_local,
        &mut payer_local,
        &req_ns,
        now,
        rebate,
    ) {
        Err(e) => {
            return Err(e);
        },
        Ok(()) => {},
    }
    let req_rp = AllowedRule {
        file_id: file.id,
        namespace: Namespaces::AddRuleResourcePerm.value(),
        resource: data.resource.clone(),
        permission_level: data.permission_level,
    };
    match allowed(
        signer,
        file,
        role,
        rule_rp,
        token,
        membership,
        &mut seed_local,
        &mut payer_local,
        &req_rp,
        now,
        rebate,
    ) {
        Err(e) => {
            return Err(e);
        },
        Ok(()) => {},
    }
    *seed = seed_local;
    *payer_balance = payer_local;
    let rule = Rule {
        file_id: file.id,
        namespace: data.namespace,
        permission_level: data.permission_level,
        resource: data.resource.clone(),
        permission: data.permission.clone(),
        expires_at: data.expires_at,
        bump,
    };
    let new_file = File {
        id: file.id,
        authority: file.authority,
        recovery: file.recovery,
        bump: file.bump,
        name: file.name.clone(),
        roles_updated_at: file.roles_updated_at,
        rules_updated_at: now,
        cached: file.cached,
        fee: file.fee,
        size: file.size,
        checksum: file.checksum.clone(),
        account_type: file.account_type,
        expires_at: file.expires_at,
    };
    Ok((rule, new_file))
}

/// Law: adding a rule requires the caller to satisfy the namespace-axis check
/// and the resource/action-axis check separately; when the creation goes
/// through, both engine evaluations were granted, so a caller satisfying only
/// one of the two is denied.
pub proof fn lemma_two_axis_rule_mutation(
    signer: Pubkey,
    file: File,
    role: Option<Role>,
    rule_ns: Option<Rule>,
    rule_rp: Option<Rule>,
    token: Option<TokenOwnership>,
    membership: Option<CollectionMembership>,
    seed: Option<Seed>,
    payer_balance: u64,
    data: RuleData,
    now: i64,
    rebate: u64,
    bump: u8,
)
    requires
        add_rule_outcome(
            signer,
            file,
            role,
            rule_ns,
            rule_rp,
            token,
            membership,
            seed,
            payer_balance,
            data,
            now,
            rebate,
            bump,
        ) is Ok,
    ensures
        ({
            let out_ns = allowed_outcome(
                signer,
                file,
                role,
                rule_ns,
                token,
                membership,
                seed,
                payer_balance,
                ns_axis_view(file, data, Namespaces::AddRuleNSRole.spec_value()),
                now,
                rebate,
            );
            &&& out_ns is Ok
            &&& allowed_outcome(
                signer,
                file,
                role,
                rule_rp,
                token,
                membership,
                out_ns->Ok_0.1,
                (payer_balance - out_ns->Ok_0.0) as u64,
                resource_axis_view(file, data, Namespaces::AddRuleResourcePerm.spec_value()),
                now,
                rebate,
            ) is Ok
        }),
{
}

} // verus!
