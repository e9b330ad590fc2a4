use sol_gateway::errors::Errors;
use sol_gateway::utils::rules::{allowed_perm, validate_ns_permission};
use sol_gateway::utils::strings::{is_valid_rule_string, u8_to_string, validate_string_len, valid_rules};

#[test]
fn test_allowed_perm() {
    assert_eq!(allowed_perm(&"add".to_string(), &"add".to_string()), true);
    assert_eq!(allowed_perm(&"add".to_string(), &"edit".to_string()), false);
    assert_eq!(allowed_perm(&"add".to_string(), &"*".to_string()), true);
}

#[test]
fn test_validate_ns_permission() {
    assert_eq!(validate_ns_permission(&"*".to_string()), Ok(()));
    assert_eq!(validate_ns_permission(&"0".to_string()), Ok(()));
    assert_eq!(validate_ns_permission(&"1".to_string()), Ok(()));
    assert_eq!(validate_ns_permission(&"255".to_string()), Ok(()));
    assert_eq!(
        validate_ns_permission(&"256".to_string()),
        Err(Errors::InvalidNamespace)
    );
    assert_eq!(
        validate_ns_permission(&"-1".to_string()),
        Err(Errors::InvalidNamespace)
    );
    assert_eq!(
        validate_ns_permission(&"a".to_string()),
        Err(Errors::InvalidNamespace)
    );
}

#[test]
fn wildcard_matches_various_resources() {
    for x in ["", "a", "view", "0123456789abcdef", "*"] {
        assert!(allowed_perm(&x.to_string(), &"*".to_string()));
    }
    assert!(!allowed_perm(&"view".to_string(), &"edit".to_string()));
    assert!(allowed_perm(&"view".to_string(), &"view".to_string()));
    // The wildcard on the requested side matches nothing but a stored
    // wildcard: only the stored string is interpreted.
    assert!(!allowed_perm(&"*".to_string(), &"edit".to_string()));
}

#[test]
fn validation_boundary() {
    // Exactly 16 alphanumeric characters validate; 17 do not.
    assert!(is_valid_rule_string("0123456789abcdef"));
    assert!(!is_valid_rule_string("0123456789abcdefg"));
    // The empty string fails; a lone `*` validates; other non-alphanumeric
    // characters fail.
    assert!(!is_valid_rule_string(""));
    assert!(is_valid_rule_string("*"));
    assert!(!is_valid_rule_string("a-b"));
    assert!(!is_valid_rule_string("**"));
    assert!(!is_valid_rule_string("a b"));
    assert!(is_valid_rule_string("A"));
    assert!(is_valid_rule_string("Zz9"));
}

#[test]
fn valid_rules_checks_both_strings() {
    assert!(valid_rules(&"res".to_string(), &"act".to_string()));
    assert!(valid_rules(&"*".to_string(), &"act".to_string()));
    assert!(!valid_rules(&"".to_string(), &"act".to_string()));
    assert!(!valid_rules(&"res".to_string(), &"a!".to_string()));
}

#[test]
fn string_length_validation() {
    assert_eq!(
        validate_string_len(&"abc".to_string(), 0, 16),
        Ok("abc".to_string())
    );
    assert_eq!(
        validate_string_len(&"abc".to_string(), 4, 16),
        Err(Errors::StringTooShort)
    );
    assert_eq!(
        validate_string_len(&"abcde".to_string(), 0, 4),
        Err(Errors::StringTooLong)
    );
}

#[test]
fn u8_decimal_rendering() {
    assert_eq!(u8_to_string(0), "0".to_string());
    assert_eq!(u8_to_string(7), "7".to_string());
    assert_eq!(u8_to_string(10), "10".to_string());
    assert_eq!(u8_to_string(42), "42".to_string());
    assert_eq!(u8_to_string(100), "100".to_string());
    assert_eq!(u8_to_string(255), "255".to_string());
}

#[test]
fn namespace_validation_rejects_shapes() {
    assert_eq!(validate_ns_permission(&"".to_string()), Err(Errors::InvalidNamespace));
    assert_eq!(validate_ns_permission(&"1a".to_string()), Err(Errors::InvalidNamespace));
    assert_eq!(validate_ns_permission(&"007".to_string()), Ok(()));
    assert_eq!(validate_ns_permission(&"9999".to_string()), Err(Errors::InvalidNamespace));
}
