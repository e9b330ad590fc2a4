use sol_gateway::errors::Errors;
use sol_gateway::instructions::add_rule::add_rule;
use sol_gateway::instructions::assign_role::assign_role;
use sol_gateway::instructions::delete_assigned_role::delete_assigned_role;
use sol_gateway::instructions::delete_file::delete_file;
use sol_gateway::instructions::delete_rule::delete_rule;
use sol_gateway::instructions::initialize_files::initialize_files;
use sol_gateway::instructions::update_cache::update_cache;
use sol_gateway::instructions::update_file::update_file;
use sol_gateway::instructions::update_metadata::update_file_metadata;
use sol_gateway::state::file::{File, FileData, Seed, UpdateFileData};
use sol_gateway::state::metadata::{FileMetadata, Metadata, MetadataData};
use sol_gateway::state::pubkey::Pubkey;
use sol_gateway::state::role::{AddressType, AssignRoleData, Role};
use sol_gateway::state::rule::{Rule, RuleData};

fn file(id: u64, authority: u64) -> File {
    File {
        id: Pubkey::new(id),
        authority: Pubkey::new(authority),
        recovery: None,
        bump: 0,
        name: "f".to_string(),
        roles_updated_at: 0,
        rules_updated_at: 0,
        cached: false,
        fee: None,
        size: 0,
        checksum: String::new(),
        account_type: 0,
        expires_at: 0,
    }
}

fn role(file_id: u64, address: u64, level: u8, can_share: bool) -> Role {
    Role {
        file_id: Pubkey::new(file_id),
        address: Some(Pubkey::new(address)),
        permission_level: level,
        can_share,
        address_type: AddressType::Wallet,
        expires_at: None,
        bump: 0,
    }
}

fn grant(address: u64, level: u8, can_share: bool) -> AssignRoleData {
    AssignRoleData {
        address: Some(Pubkey::new(address)),
        permission_level: level,
        can_share,
        address_type: AddressType::Wallet,
        expires_at: None,
    }
}

#[test]
fn initialize_file_sets_authority_and_timestamps() {
    let data = FileData {
        id: Pubkey::new(1),
        recovery: Some(Pubkey::new(2)),
        name: "project".to_string(),
        cached: true,
        size: 4096,
        checksum: "abc123".to_string(),
        expires_at: 99,
        metadata: None,
    };
    let (f, md) = initialize_files(&Pubkey::new(9), &data, false, 1234, 7, 0).unwrap();
    assert_eq!(f.authority, Pubkey::new(9));
    assert_eq!(f.recovery, Some(Pubkey::new(2)));
    assert_eq!(f.roles_updated_at, 1234);
    assert_eq!(f.rules_updated_at, 1234);
    assert_eq!(f.fee, None);
    assert_eq!(f.name, "project".to_string());
    assert_eq!(f.bump, 7);
    assert!(md.is_none());
}

#[test]
fn initialize_file_metadata_pairing() {
    let entries = vec![Metadata { key: "k".to_string(), value: "v".to_string() }];
    let with_md = FileData {
        id: Pubkey::new(1),
        recovery: None,
        name: "n".to_string(),
        cached: false,
        size: 0,
        checksum: String::new(),
        expires_at: 0,
        metadata: Some(entries.clone()),
    };
    // Metadata without a record to hold it, and a record without metadata,
    // are both rejected.
    assert_eq!(
        initialize_files(&Pubkey::new(9), &with_md, false, 0, 0, 0),
        Err(Errors::FileMetadataAccountNotFound)
    );
    let without_md = FileData { metadata: None, ..with_md.clone() };
    assert_eq!(
        initialize_files(&Pubkey::new(9), &without_md, true, 0, 0, 0),
        Err(Errors::UnexpectedMetadataAccount)
    );
    let (_, md) = initialize_files(&Pubkey::new(9), &with_md, true, 0, 0, 3).unwrap();
    let md = md.unwrap();
    assert_eq!(md.file_id, Pubkey::new(1));
    assert_eq!(md.metadata, entries);
    assert_eq!(md.bump, 3);
}

#[test]
fn initialize_file_rejects_long_names() {
    let data = FileData {
        id: Pubkey::new(1),
        recovery: None,
        name: "x".repeat(33),
        cached: false,
        size: 0,
        checksum: String::new(),
        expires_at: 0,
        metadata: None,
    };
    assert_eq!(
        initialize_files(&Pubkey::new(9), &data, false, 0, 0, 0),
        Err(Errors::StringTooLong)
    );
}

#[test]
fn authority_grants_roles_freely() {
    let f = file(1, 9);
    let (ro, f2) = assign_role(&Pubkey::new(9), &f, &None, &grant(7, 3, true), 50, 1).unwrap();
    assert_eq!(ro.file_id, f.id);
    assert_eq!(ro.address, Some(Pubkey::new(7)));
    assert_eq!(ro.permission_level, 3);
    assert!(ro.can_share);
    assert_eq!(f2.roles_updated_at, 50);
}

#[test]
fn delegation_is_checked() {
    let f = file(1, 9);
    // Level out of range.
    assert_eq!(
        assign_role(&Pubkey::new(9), &f, &None, &grant(7, 0, false), 0, 0),
        Err(Errors::InvalidPermissionLevel)
    );
    assert_eq!(
        assign_role(&Pubkey::new(9), &f, &None, &grant(7, 4, false), 0, 0),
        Err(Errors::InvalidPermissionLevel)
    );
    // A non-authority without a role of their own.
    assert_eq!(
        assign_role(&Pubkey::new(5), &f, &None, &grant(7, 1, false), 0, 0),
        Err(Errors::MissingUserRole)
    );
    // A role that is not the caller's own record.
    let other = role(1, 6, 3, true);
    assert_eq!(
        assign_role(&Pubkey::new(5), &f, &Some(other), &grant(7, 1, false), 0, 0),
        Err(Errors::InvalidUserRole)
    );
    // A role without the share flag.
    let no_share = role(1, 5, 3, false);
    assert_eq!(
        assign_role(&Pubkey::new(5), &f, &Some(no_share), &grant(7, 1, false), 0, 0),
        Err(Errors::InsufficientSharePermission)
    );
    // Delegation never escalates.
    let sharer = role(1, 5, 2, true);
    assert_eq!(
        assign_role(&Pubkey::new(5), &f, &Some(sharer), &grant(7, 3, false), 0, 0),
        Err(Errors::CannotGrantHigherPermissionLevel)
    );
    let (ro, _) = assign_role(&Pubkey::new(5), &f, &Some(sharer), &grant(7, 2, false), 0, 0)
        .unwrap();
    assert_eq!(ro.permission_level, 2);
}

#[test]
fn revocation_is_checked() {
    let f = file(1, 9);
    let target = role(1, 7, 3, false);
    // The authority revokes freely.
    let f2 = delete_assigned_role(&Pubkey::new(9), &f, &target, &None, 77).unwrap();
    assert_eq!(f2.roles_updated_at, 77);
    // A non-authority needs their own sharing role at a sufficient level.
    assert_eq!(
        delete_assigned_role(&Pubkey::new(5), &f, &target, &None, 0),
        Err(Errors::MissingUserRole)
    );
    let lower = role(1, 5, 2, true);
    assert_eq!(
        delete_assigned_role(&Pubkey::new(5), &f, &target, &Some(lower), 0),
        Err(Errors::CannotDeleteHigherPermissionLevel)
    );
    let equal = role(1, 5, 3, true);
    assert!(delete_assigned_role(&Pubkey::new(5), &f, &target, &Some(equal), 0).is_ok());
}

#[test]
fn update_file_is_gated_and_validated() {
    let f = file(1, 9);
    let data = UpdateFileData {
        authority: Pubkey::new(9),
        recovery: None,
        name: "renamed".to_string(),
        cached: false,
        fee: Some(5),
        size: Some(1),
        checksum: "c".to_string(),
        account_type: 0,
        expires_at: None,
    };
    // A stranger cannot update.
    assert_eq!(
        update_file(&Pubkey::new(5), &f, &None, &data),
        Err(Errors::InsufficientPermission)
    );
    // The authority can; optional fields replace, absent ones keep.
    let f2 = update_file(&Pubkey::new(9), &f, &None, &data).unwrap();
    assert_eq!(f2.name, "renamed".to_string());
    assert_eq!(f2.fee, Some(5));
    assert_eq!(f2.size, 1);
    assert_eq!(f2.expires_at, f.expires_at);
    // An update-capable role may edit, but not hand the authority on.
    let editor = role(1, 5, 2, false);
    let handover = UpdateFileData { authority: Pubkey::new(5), ..data.clone() };
    assert_eq!(
        update_file(&Pubkey::new(5), &f, &Some(editor), &handover),
        Err(Errors::UnauthorizedAuthorityUpdate)
    );
    assert!(update_file(&Pubkey::new(5), &f, &Some(editor), &data).is_ok());
    // Over-long names are rejected.
    let long = UpdateFileData { name: "x".repeat(17), ..data };
    assert_eq!(update_file(&Pubkey::new(9), &f, &None, &long), Err(Errors::StringTooLong));
}

#[test]
fn delete_file_is_gated() {
    let f = file(1, 9);
    assert_eq!(delete_file(&Pubkey::new(9), &f, &None), Ok(()));
    assert_eq!(delete_file(&Pubkey::new(5), &f, &None), Err(Errors::Unauthorized));
    let updater = role(1, 5, 2, false);
    assert_eq!(delete_file(&Pubkey::new(5), &f, &Some(updater)), Err(Errors::Unauthorized));
    let deleter = role(1, 5, 3, false);
    assert_eq!(delete_file(&Pubkey::new(5), &f, &Some(deleter)), Ok(()));
}

#[test]
fn update_cache_bumps_the_selected_timestamp() {
    let f = file(1, 9);
    assert_eq!(
        update_cache(&Pubkey::new(5), &f, 0, 10),
        Err(Errors::Unauthorized)
    );
    let roles_bumped = update_cache(&Pubkey::new(9), &f, 0, 10).unwrap();
    assert_eq!(roles_bumped.roles_updated_at, 10);
    assert_eq!(roles_bumped.rules_updated_at, 0);
    let rules_bumped = update_cache(&Pubkey::new(9), &f, 1, 10).unwrap();
    assert_eq!(rules_bumped.roles_updated_at, 0);
    assert_eq!(rules_bumped.rules_updated_at, 10);
}

#[test]
fn metadata_update_is_reserved_to_the_authority() {
    let f = file(1, 9);
    let record = FileMetadata { file_id: Pubkey::new(1), metadata: vec![], bump: 2 };
    let entries = vec![Metadata { key: "k".to_string(), value: "v".to_string() }];
    let data = MetadataData { metadata: entries.clone() };
    // The record must belong to the file.
    let foreign = FileMetadata { file_id: Pubkey::new(3), metadata: vec![], bump: 2 };
    assert_eq!(
        update_file_metadata(&Pubkey::new(9), &f, &foreign, &None, &data),
        Err(Errors::InvalidFileId)
    );
    // A stranger is denied outright; an editor role clears the permission
    // check, but only the authority itself may rewrite metadata.
    assert_eq!(
        update_file_metadata(&Pubkey::new(5), &f, &record, &None, &data),
        Err(Errors::InsufficientPermission)
    );
    let editor = role(1, 5, 2, false);
    assert_eq!(
        update_file_metadata(&Pubkey::new(5), &f, &record, &Some(editor), &data),
        Err(Errors::UnauthorizedMetadataUpdate)
    );
    let updated = update_file_metadata(&Pubkey::new(9), &f, &record, &None, &data).unwrap();
    assert_eq!(updated.metadata, entries);
    assert_eq!(updated.bump, 2);
}

fn rule_data(namespace: u8, level: u8, resource: &str, permission: &str) -> RuleData {
    RuleData {
        namespace,
        permission_level: level,
        resource: resource.to_string(),
        permission: permission.to_string(),
        expires_at: None,
    }
}

fn meta_rule(file_id: u64, meta_ns: u8, resource: &str, level: u8) -> Rule {
    Rule {
        file_id: Pubkey::new(file_id),
        namespace: meta_ns,
        permission_level: level,
        resource: resource.to_string(),
        permission: "act".to_string(),
        expires_at: None,
        bump: 0,
    }
}

#[test]
fn add_rule_requires_both_axes() {
    // The caller wants to add a rule in namespace 77 for resource "data".
    // Namespace 0 governs the namespace axis of rule creation; namespace 1
    // governs the resource/action axis.
    let f = file(1, 9);
    let signer = Pubkey::new(5);
    let caller_role = role(1, 5, 2, false);
    let data = rule_data(77, 2, "data", "edit");
    let ns_evidence = meta_rule(1, 0, "77", 2);
    let rp_evidence = meta_rule(1, 1, "data", 2);
    let mut payer: u64 = 0;
    // Only the namespace axis satisfied: denied.
    let one = add_rule(
        &signer, &f, &Some(caller_role), &Some(ns_evidence.clone()), &None, &None, &None,
        &mut None, &mut payer, &data, 0, 0, 0,
    );
    assert_eq!(one, Err(Errors::Unauthorized));
    // Only the resource axis satisfied: denied.
    let other = add_rule(
        &signer, &f, &Some(caller_role), &None, &Some(rp_evidence.clone()), &None, &None,
        &mut None, &mut payer, &data, 0, 0, 0,
    );
    assert_eq!(other, Err(Errors::Unauthorized));
    // Both satisfied: the rule is created and the rule cache bumped.
    let (created, f2) = add_rule(
        &signer, &f, &Some(caller_role), &Some(ns_evidence), &Some(rp_evidence), &None,
        &None, &mut None, &mut payer, &data, 42, 0, 6,
    )
    .unwrap();
    assert_eq!(created.file_id, f.id);
    assert_eq!(created.namespace, 77);
    assert_eq!(created.resource, "data".to_string());
    assert_eq!(created.permission, "edit".to_string());
    assert_eq!(created.bump, 6);
    assert_eq!(f2.rules_updated_at, 42);
}

#[test]
fn add_rule_validates_before_authorizing() {
    let f = file(1, 9);
    let signer = Pubkey::new(9);
    let mut payer: u64 = 0;
    // Invalid strings.
    assert_eq!(
        add_rule(
            &signer, &f, &None, &None, &None, &None, &None, &mut None, &mut payer,
            &rule_data(7, 2, "", "act"), 0, 0, 0,
        ),
        Err(Errors::InvalidRule)
    );
    // Out-of-range level.
    assert_eq!(
        add_rule(
            &signer, &f, &None, &None, &None, &None, &None, &mut None, &mut payer,
            &rule_data(7, 9, "res", "act"), 0, 0, 0,
        ),
        Err(Errors::InvalidPermissionLevel)
    );
    // A rule in the role-assignment namespaces must name an address kind.
    assert_eq!(
        add_rule(
            &signer, &f, &None, &None, &None, &None, &None, &mut None, &mut payer,
            &rule_data(4, 2, "res", "act"), 0, 0, 0,
        ),
        Err(Errors::InvalidAddressType)
    );
    assert!(
        add_rule(
            &signer, &f, &None, &None, &None, &None, &None, &mut None, &mut payer,
            &rule_data(4, 2, "Wallet", "act"), 0, 0, 0,
        )
        .is_ok()
    );
    // A rule in the rule-mutation namespaces must encode a namespace.
    assert_eq!(
        add_rule(
            &signer, &f, &None, &None, &None, &None, &None, &mut None, &mut payer,
            &rule_data(0, 2, "abc", "act"), 0, 0, 0,
        ),
        Err(Errors::InvalidNamespace)
    );
    assert!(
        add_rule(
            &signer, &f, &None, &None, &None, &None, &None, &mut None, &mut payer,
            &rule_data(0, 2, "200", "act"), 0, 0, 0,
        )
        .is_ok()
    );
}

#[test]
fn delete_rule_requires_both_axes() {
    // Namespace 2 governs the namespace axis of rule deletion; namespace 3
    // governs the resource/action axis.
    let f = file(1, 9);
    let signer = Pubkey::new(5);
    let caller_role = role(1, 5, 2, false);
    let target = meta_rule(1, 77, "data", 2);
    let ns_evidence = meta_rule(1, 2, "77", 2);
    let rp_evidence = meta_rule(1, 3, "data", 2);
    let mut payer: u64 = 0;
    let one = delete_rule(
        &signer, &f, &Some(caller_role), &Some(ns_evidence.clone()), &None, &None, &None,
        &mut None, &mut payer, &target, 0, 0,
    );
    assert_eq!(one, Err(Errors::Unauthorized));
    let f2 = delete_rule(
        &signer, &f, &Some(caller_role), &Some(ns_evidence), &Some(rp_evidence), &None,
        &None, &mut None, &mut payer, &target, 9, 0,
    )
    .unwrap();
    assert_eq!(f2.rules_updated_at, 9);
}

#[test]
fn rule_mutation_fees_are_charged_per_evaluation() {
    // A fee-bearing file charges each of the two rule-mutation evaluations;
    // the first one consumes the first-use rebate.
    let mut f = file(1, 9);
    f.fee = Some(100);
    let signer = Pubkey::new(5);
    let caller_role = role(1, 5, 2, false);
    let data = rule_data(77, 2, "data", "edit");
    let ns_evidence = meta_rule(1, 0, "77", 2);
    let rp_evidence = meta_rule(1, 1, "data", 2);
    let mut seed = Some(Seed { initialized: false, balance: 0 });
    let mut payer: u64 = 1_000;
    add_rule(
        &signer, &f, &Some(caller_role), &Some(ns_evidence), &Some(rp_evidence), &None,
        &None, &mut seed, &mut payer, &data, 0, 20, 0,
    )
    .unwrap();
    // First evaluation: 80 (rebated); second: 100.
    assert_eq!(payer, 820);
    assert_eq!(seed, Some(Seed { initialized: true, balance: 180 }));
}
