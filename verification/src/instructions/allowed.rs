//! The authorization engine: decides whether a caller may exercise a
//! capability on a file, and meters the file's per-call fee with a one-time
//! rebate on the caller's first fee-bearing interaction.
//!
//! The whole decision, including every state change it entails, is the spec
//! function [`allowed_outcome`]; the executable [`allowed`] is proved to
//! follow it exactly. An evaluation is transactional: on any error nothing is
//! changed.

use vstd::prelude::*;

use crate::errors::Errors;
use crate::state::file::{File, Seed};
use crate::state::pubkey::Pubkey;
use crate::state::role::Role;
use crate::state::rule::Rule;
use crate::utils::file::{authority_or_recovery, fee_owed, get_fee, is_authority_or_recovery,
    rebated_fee, subtract_rent_exemption_from_fee};
use crate::utils::rules::{allowed_perm, perm_matches};

verus! {

/// What the caller requests right now: the file, the namespace of the
/// operation, the resource touched, and the permission level exercised.
#[derive(Clone, Debug, PartialEq)]
pub struct AllowedRule {
    pub file_id: Pubkey,
    pub namespace: u8,
    pub resource: String,
    pub permission_level: u8,
}

/// The mathematical content of a request: the resource as a character
/// sequence, the other fields as they are.
pub struct AllowedRuleView {
    pub file_id: Pubkey,
    pub namespace: u8,
    pub resource: Seq<char>,
    pub permission_level: u8,
}

impl View for AllowedRule {
    type V = AllowedRuleView;

    open spec fn view(&self) -> AllowedRuleView {
        AllowedRuleView {
            file_id: self.file_id,
            namespace: self.namespace,
            resource: self.resource@,
            permission_level: self.permission_level,
        }
    }
}

/// An ownership attestation from the identity oracle: `owner` holds `amount`
/// units of the asset `mint`.
#[derive(Clone, Copy, Debug, PartialEq, Eq, Structural)]
pub struct TokenOwnership {
    pub owner: Pubkey,
    pub mint: Pubkey,
    pub amount: u64,
}

/// A collection-membership attestation: the asset `mint` belongs to
/// `collection`, and `verified` says whether the membership is attested.
#[derive(Clone, Copy, Debug, PartialEq, Eq, Structural)]
pub struct CollectionMembership {
    pub verified: bool,
    pub mint: Pubkey,
    pub collection: Pubkey,
}

/// An expiry denies from the boundary instant on: `Some(now)` is already
/// expired, `Some(now + 1)` still holds. No expiry never denies.
pub open spec fn not_expired(expires_at: Option<i64>, now: i64) -> bool {
    match expires_at {
        None => true,
        Some(t) => t > now,
    }
}

/// Whether a stored rule covers the request: same namespace, resource matched
/// under wildcard semantics, and a presented permission level that meets or
/// exceeds the one the rule demands.
pub open spec fn rule_applies(rule: Rule, req: AllowedRuleView) -> bool {
    &&& rule.namespace == req.namespace
    &&& perm_matches(req.resource, rule.resource@)
    &&& req.permission_level >= rule.permission_level
}

/// Admission by identity: the caller is the role's grantee, or the grant is
/// the wildcard.
pub open spec fn wallet_admits(signer: Pubkey, role: Role) -> bool {
    match role.address {
        None => true,
        Some(a) => a == signer,
    }
}

/// Admission by asset: the caller owns a positive amount of the asset the
/// role is granted to (any asset, for a wildcard grant).
pub open spec fn token_admits(signer: Pubkey, role: Role, token: Option<TokenOwnership>) -> bool {
    match token {
        None => false,
        Some(t) => {
            &&& t.owner == signer
            &&& t.amount > 0
            &&& match role.address {
                None => true,
                Some(a) => a == t.mint,
            }
        },
    }
}

/// Admission by collection: the caller owns a positive amount of an asset
/// whose verified collection is the one the role is granted to.
pub open spec fn collection_admits(
    signer: Pubkey,
    role: Role,
    token: Option<TokenOwnership>,
    membership: Option<CollectionMembership>,
) -> bool {
    match (token, membership) {
        (Some(t), Some(m)) => {
            &&& t.owner == signer
            &&& t.amount > 0
            &&& m.verified
            &&& m.mint == t.mint
            &&& match role.address {
                None => true,
                Some(a) => a == m.collection,
            }
        },
        _ => false,
    }
}

/// The three disjoint admission paths, tried in this order: identity, owned
/// asset, verified collection of an owned asset.
pub open spec fn evidence_admits(
    signer: Pubkey,
    role: Role,
    token: Option<TokenOwnership>,
    membership: Option<CollectionMembership>,
) -> bool {
    ||| wallet_admits(signer, role)
    ||| token_admits(signer, role, token)
    ||| collection_admits(signer, role, token, membership)
}

/// The fee charged for this evaluation: the file's fee, rebated once when the
/// caller's accumulator exists but is not yet initialized.
pub open spec fn charge_due(file: File, seed: Option<Seed>, rebate: u64) -> u64 {
    match seed {
        Some(s) => if !s.initialized {
            rebated_fee(fee_owed(file), rebate)
        } else {
            fee_owed(file)
        },
        None => fee_owed(file),
    }
}

/// The accumulator as it stands after an admission: initialized, and holding
/// the charge just collected.
pub open spec fn seed_after_charge(seed: Option<Seed>, charge: u64) -> Option<Seed> {
    match seed {
        Some(s) => Some(Seed { initialized: true, balance: (s.balance + charge) as u64 }),
        None => None,
    }
}

/// The complete authorization decision, evaluated in strict order over one
/// consistent snapshot of the evidence. On success it yields the fee charged
/// and the accumulator's new state; every denial of substance is the one
/// generic `Unauthorized`, so the outcome leaks nothing about which policy
/// check failed.
pub open spec fn allowed_outcome(
    signer: Pubkey,
    file: File,
    role: Option<Role>,
    rule: Option<Rule>,
    token: Option<TokenOwnership>,
    membership: Option<CollectionMembership>,
    seed: Option<Seed>,
    payer_balance: u64,
    req: AllowedRuleView,
    now: i64,
    rebate: u64,
) -> Result<(u64, Option<Seed>), Errors> {
    if req.file_id != file.id {
        // A mismatched file id is caller misuse, not a policy outcome.
        Err(Errors::InvalidFileID)
    } else if is_authority_or_recovery(signer, file) {
        // The owner bypass is absolute and the only zero-fee path.
        Ok((0, seed))
    } else if fee_owed(file) > 0 && seed is None {
        Err(Errors::MissingSeedAccount)
    } else {
        let charge = charge_due(file, seed, rebate);
        match (role, rule) {
            (Some(ro), Some(ru)) => {
                if ro.file_id != file.id || ru.file_id != file.id {
                    Err(Errors::Unauthorized)
                } else if !rule_applies(ru, req) {
                    Err(Errors::Unauthorized)
                } else if !not_expired(ro.expires_at, now) || !not_expired(ru.expires_at, now) {
                    Err(Errors::Unauthorized)
                } else if !evidence_admits(signer, ro, token, membership) {
                    Err(Errors::Unauthorized)
                } else if charge > payer_balance {
                    Err(Errors::InsufficientFunds)
                } else {
                    Ok((charge, seed_after_charge(seed, charge)))
                }
            },
            _ => Err(Errors::Unauthorized),
        }
    }
}

/// Law: a call from the file's authority or its recovery identity is always
/// allowed, whatever the role, rule, expiry, fee or accumulator state, and it
/// never charges a fee nor touches the accumulator.
pub proof fn lemma_owner_bypass(
    signer: Pubkey,
    file: File,
    role: Option<Role>,
    rule: Option<Rule>,
    token: Option<TokenOwnership>,
    membership: Option<CollectionMembership>,
    seed: Option<Seed>,
    payer_balance: u64,
    req: AllowedRuleView,
    now: i64,
    rebate: u64,
)
    requires
        req.file_id == file.id,
        is_authority_or_recovery(signer, file),
    ensures
        allowed_outcome(
            signer,
            file,
            role,
            rule,
            token,
            membership,
            seed,
            payer_balance,
            req,
            now,
            rebate,
        ) == Ok::<(u64, Option<Seed>), Errors>((0u64, seed)),
{
}

/// Law: denials are opaque. The engine surfaces only caller misuse
/// (`InvalidFileID`, `MissingSeedAccount`), the transfer-layer failure
/// (`InsufficientFunds`), and the one generic `Unauthorized`: no outcome
/// names the policy check that failed, so a probing caller learns nothing
/// about the shape of the policy.
pub proof fn lemma_denials_are_opaque(
    signer: Pubkey,
    file: File,
    role: Option<Role>,
    rule: Option<Rule>,
    token: Option<TokenOwnership>,
    membership: Option<CollectionMembership>,
    seed: Option<Seed>,
    payer_balance: u64,
    req: AllowedRuleView,
    now: i64,
    rebate: u64,
)
    ensures
        match allowed_outcome(
            signer,
            file,
            role,
            rule,
            token,
            membership,
            seed,
            payer_balance,
            req,
            now,
            rebate,
        ) {
            Ok(_) => true,
            Err(e) => e == Errors::InvalidFileID || e == Errors::MissingSeedAccount || e
                == Errors::Unauthorized || e == Errors::InsufficientFunds,
        },
{
}

/// Law: expiry is exclusive of the boundary instant. For a non-owner call
/// that would be granted with an unexpiring role, the same call is denied
/// when the role expires exactly at `now` and still granted when it expires
/// one instant later, with the same charge and accumulator update.
pub proof fn lemma_role_expiry_exclusive(
    signer: Pubkey,
    file: File,
    role: Role,
    rule: Option<Rule>,
    token: Option<TokenOwnership>,
    membership: Option<CollectionMembership>,
    seed: Option<Seed>,
    payer_balance: u64,
    req: AllowedRuleView,
    now: i64,
    rebate: u64,
)
    requires
        now < i64::MAX,
        !is_authority_or_recovery(signer, file),
        allowed_outcome(
            signer,
            file,
            Some(Role { expires_at: None, ..role }),
            rule,
            token,
            membership,
            seed,
            payer_balance,
            req,
            now,
            rebate,
        ) is Ok,
    ensures
        allowed_outcome(
            signer,
            file,
            Some(Role { expires_at: Some(now), ..role }),
            rule,
            token,
            membership,
            seed,
            payer_balance,
            req,
            now,
            rebate,
        ) == Err::<(u64, Option<Seed>), Errors>(Errors::Unauthorized),
        allowed_outcome(
            signer,
            file,
            Some(Role { expires_at: Some((now + 1) as i64), ..role }),
            rule,
            token,
            membership,
            seed,
            payer_balance,
            req,
            now,
            rebate,
        ) == allowed_outcome(
            signer,
            file,
            Some(Role { expires_at: None, ..role }),
            rule,
            token,
            membership,
            seed,
            payer_balance,
            req,
            now,
            rebate,
        ),
{
}

/// Law: expiry is exclusive of the boundary instant, for rules as for roles.
pub proof fn lemma_rule_expiry_exclusive(
    signer: Pubkey,
    file: File,
    role: Option<Role>,
    rule: Rule,
    token: Option<TokenOwnership>,
    membership: Option<CollectionMembership>,
    seed: Option<Seed>,
    payer_balance: u64,
    req: AllowedRuleView,
    now: i64,
    rebate: u64,
)
    requires
        now < i64::MAX,
        !is_authority_or_recovery(signer, file),
        allowed_outcome(
            signer,
            file,
            role,
            Some(Rule { expires_at: None, ..rule }),
            token,
            membership,
            seed,
            payer_balance,
            req,
            now,
            rebate,
        ) is Ok,
    ensures
        allowed_outcome(
            signer,
            file,
            role,
            Some(Rule { expires_at: Some(now), ..rule }),
            token,
            membership,
            seed,
            payer_balance,
            req,
            now,
            rebate,
        ) == Err::<(u64, Option<Seed>), Errors>(Errors::Unauthorized),
        allowed_outcome(
            signer,
            file,
            role,
            Some(Rule { expires_at: Some((now + 1) as i64), ..rule }),
            token,
            membership,
            seed,
            payer_balance,
            req,
            now,
            rebate,
        ) == allowed_outcome(
            signer,
            file,
            role,
            Some(Rule { expires_at: None, ..rule }),
            token,
            membership,
            seed,
            payer_balance,
            req,
            now,
            rebate,
        ),
{
}

/// Law: the first-use rebate is applied exactly once per principal. A granted
/// call by a non-owner whose accumulator is not yet initialized is charged
/// the rebated fee and leaves the accumulator initialized; any further
/// granted call is charged the nominal fee, and the accumulator stays
/// initialized.
pub proof fn lemma_first_use_rebate(
    signer: Pubkey,
    file: File,
    role: Option<Role>,
    rule: Option<Rule>,
    token: Option<TokenOwnership>,
    membership: Option<CollectionMembership>,
    s: Seed,
    payer_balance1: u64,
    payer_balance2: u64,
    req: AllowedRuleView,
    now: i64,
    rebate: u64,
)
    requires
        !s.initialized,
        !is_authority_or_recovery(signer, file),
        allowed_outcome(
            signer,
            file,
            role,
            rule,
            token,
            membership,
            Some(s),
            payer_balance1,
            req,
            now,
            rebate,
        ) is Ok,
    ensures
        ({
            let out1 = allowed_outcome(
                signer,
                file,
                role,
                rule,
                token,
                membership,
                Some(s),
                payer_balance1,
                req,
                now,
                rebate,
            );
            let charge1 = out1->Ok_0.0;
            let seed1 = out1->Ok_0.1;
            let out2 = allowed_outcome(
                signer,
                file,
                role,
                rule,
                token,
                membership,
                seed1,
                payer_balance2,
                req,
                now,
                rebate,
            );
            &&& charge1 == rebated_fee(fee_owed(file), rebate)
            &&& seed1 == Some(Seed { initialized: true, balance: (s.balance + charge1) as u64 })
            &&& (out2 is Ok ==> out2->Ok_0.0 == fee_owed(file) && (out2->Ok_0.1 matches Some(s2)
                && s2.initialized))
        }),
{
}

/// Whether an expiry still holds at `now`.
fn check_not_expired(expires_at: &Option<i64>, now: i64) -> (r: bool)
    ensures
        r == not_expired(*expires_at, now),
{
    match expires_at {
        None => true,
        Some(t) => *t > now,
    }
}

/// Whether any of the three admission paths accepts the caller.
fn check_evidence(
    signer: &Pubkey,
    role: &Role,
    token: &Option<TokenOwnership>,
    membership: &Option<CollectionMembership>,
) -> (r: bool)
    ensures
        r == evidence_admits(*signer, *role, *token, *membership),
{
    let wallet = match role.address {
        None => true,
        Some(a) => a == *signer,
    };
    if wallet {
        return true;
    }
    match token {
        None => false,
        Some(t) => {
            if !(t.owner == *signer && t.amount > 0) {
                return false;
            }
            let mint_ok = match role.address {
                None => true,
                Some(a) => a == t.mint,
            };
            if mint_ok {
                return true;
            }
            match membership {
                None => false,
                Some(m) => {
                    m.verified && m.mint == t.mint && (match role.address {
                        None => true,
                        Some(a) => a == m.collection,
                    })
                },
            }
        },
    }
}

/// What a fee transfer does: a zero fee moves nothing; a missing accumulator
/// or an insufficient payer balance fails; otherwise the fee moves from the
/// payer's balance into the accumulator's.
pub open spec fn transfer_outcome(payer: u64, receiver: Option<Seed>, fee: u64) -> Result<
    (u64, Option<Seed>),
    Errors,
> {
    if fee == 0 {
        Ok((payer, receiver))
    } else {
        match receiver {
            None => Err(Errors::MissingSeedAccount),
            Some(s) => if payer < fee {
                Err(Errors::InsufficientFunds)
            } else {
                Ok(
                    (
                        (payer - fee) as u64,
                        Some(Seed { initialized: s.initialized, balance: (s.balance + fee) as u64 }),
                    ),
                )
            },
        }
    }
}

/// Moves `fee` of the base currency from the payer to the accumulator,
/// following [`transfer_outcome`] exactly; on an error nothing moves.
pub fn pay_fee(payer_balance: &mut u64, receiver: &mut Option<Seed>, fee: u64) -> (r: Result<
    (),
    Errors,
>)
    requires
        (*old(receiver) matches Some(s) ==> s.balance + fee <= u64::MAX),
    ensures
        match transfer_outcome(*old(payer_balance), *old(receiver), fee) {
            Ok((p, rec)) => {
                &&& r == Ok::<(), Errors>(())
                &&& *final(payer_balance) == p
                &&& *final(receiver) == rec
            },
            Err(e) => {
                &&& r == Err::<(), Errors>(e)
                &&& *final(payer_balance) == *old(payer_balance)
                &&& *final(receiver) == *old(receiver)
            },
        },
{
    if fee == 0 {
        return Ok(());
    }
    let target = match &*receiver {
        None => {
            return Err(Errors::MissingSeedAccount);
        },
        Some(s) => *s,
    };
    if *payer_balance < fee {
        return Err(Errors::InsufficientFunds);
    }
    *payer_balance = *payer_balance - fee;
    *receiver = Some(Seed { initialized: target.initialized, balance: target.balance + fee });
    Ok(())
}

/// Decides whether `signer` may exercise the capability described by `req` on
/// `file`, given the presented role, rule, ownership and membership evidence,
/// and collects the fee due into the caller's accumulator. The result and
/// every state change follow [`allowed_outcome`] exactly; on an error nothing
/// is changed.
pub fn allowed(
    signer: &Pubkey,
    file: &File,
    role: &Option<Role>,
    rule: &Option<Rule>,
    token: &Option<TokenOwnership>,
    membership: &Option<CollectionMembership>,
    seed: &mut Option<Seed>,
    payer_balance: &mut u64,
    req: &AllowedRule,
    now: i64,
    rebate: u64,
) -> (r: Result<(), Errors>)
    requires
        (*old(seed) matches Some(s) ==> s.balance + fee_owed(*file) <= u64::MAX),
    ensures
        match allowed_outcome(
            *signer,
            *file,
            *role,
            *rule,
            *token,
            *membership,
            *old(seed),
            *old(payer_balance),
            req@,
            now,
            rebate,
        ) {
            Ok((charge, new_seed)) => {
                &&& r == Ok::<(), Errors>(())
                &&& *final(seed) == new_seed
                &&& *final(payer_balance) == *old(payer_balance) - charge
            },
            Err(e) => {
                &&& r == Err::<(), Errors>(e)
                &&& *final(seed) == *old(seed)
                &&& *final(payer_balance) == *old(payer_balance)
            },
        },
{
    // The file id referenced by the request must be the target file.
    if req.file_id != file.id {
        return Err(Errors::InvalidFileID);
    }
    // The file authority and recovery identities are always allowed, free.
    if authority_or_recovery(signer, file) {
        return Ok(());
    }
    let fee = get_fee(file);
    // A non-owner cannot transact against a fee-bearing file without an
    // accumulator to deposit the fee in.
    if fee > 0 && seed.is_none() {
        return Err(Errors::MissingSeedAccount);
    }
    // The first-ever interaction of this principal is rebated the storage
    // cost of the accumulator being created for them.
    let charge = match &*seed {
        Some(s) => if !s.initialized {
            subtract_rent_exemption_from_fee(fee, rebate)
        } else {
            fee
        },
        None => fee,
    };
    // Beyond this point only the owner bypass may proceed without both a
    // role and a rule.
    let ro = match role {
        Some(ro) => ro,
        None => {
            return Err(Errors::Unauthorized);
        },
    };
    let ru = match rule {
        Some(ru) => ru,
        None => {
            return Err(Errors::Unauthorized);
        },
    };
    // Cross-tenant evidence is rejected.
    if ro.file_id != file.id || ru.file_id != file.id {
        return Err(Errors::Unauthorized);
    }
    if ru.namespace != req.namespace {
        return Err(Errors::Unauthorized);
    }
    if !allowed_perm(&req.resource, &ru.resource) || req.permission_level < ru.permission_level {
        return Err(Errors::Unauthorized);
    }
    if !check_not_expired(&ro.expires_at, now) || !check_not_expired(&ru.expires_at, now) {
        return Err(Errors::Unauthorized);
    }
    if !check_evidence(signer, ro, token, membership) {
        return Err(Errors::Unauthorized);
    }
    match pay_fee(payer_balance, seed, charge) {
        Ok(()) => {
            // The admission succeeded and the fee is collected: the caller's
            // first use, if this was one, is now consumed.
            let new_seed = match &*seed {
                Some(s) => Some(Seed { initialized: true, balance: s.balance }),
                None => None,
            };
            *seed = new_seed;
            Ok(())
        },
        Err(e) => Err(e),
    }
}

} // verus!
