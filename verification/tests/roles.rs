use sol_gateway::errors::Errors;
use sol_gateway::state::pubkey::Pubkey;
use sol_gateway::state::role::{ActionType, AddressType, Role};
use sol_gateway::utils::roles::{address_or_wildcard, perform_action};

fn role(level: u8) -> Role {
    Role {
        file_id: Pubkey::new(1),
        address: Some(Pubkey::new(7)),
        permission_level: level,
        can_share: false,
        address_type: AddressType::Wallet,
        expires_at: None,
        bump: 0,
    }
}

#[test]
fn permission_levels_order_the_actions() {
    assert_eq!(perform_action(&role(1), ActionType::View), Ok(()));
    assert_eq!(
        perform_action(&role(1), ActionType::Update),
        Err(Errors::InsufficientPermission)
    );
    assert_eq!(perform_action(&role(2), ActionType::Update), Ok(()));
    assert_eq!(
        perform_action(&role(2), ActionType::Delete),
        Err(Errors::InsufficientPermission)
    );
    assert_eq!(perform_action(&role(3), ActionType::Delete), Ok(()));
    assert_eq!(perform_action(&role(3), ActionType::View), Ok(()));
}

#[test]
fn address_kinds_have_names() {
    assert_eq!(AddressType::Wallet.to_string(), "Wallet".to_string());
    assert_eq!(AddressType::Collection.to_string(), "Collection".to_string());
    assert_eq!(AddressType::DID.to_string(), "DID".to_string());
}

#[test]
fn role_key_component_spells_the_wildcard() {
    // A wildcard grant contributes the literal `*` byte to the role's
    // storage key; a concrete address contributes its own bytes.
    assert_eq!(address_or_wildcard(&None), vec![b'*']);
    assert_eq!(
        address_or_wildcard(&Some(Pubkey::new(0x0102030405060708))),
        vec![8, 7, 6, 5, 4, 3, 2, 1]
    );
}

#[test]
fn errors_describe_themselves() {
    assert!(Errors::Unauthorized.message().contains("privileges"));
    assert!(Errors::InvalidNamespace.message().contains("255"));
}
