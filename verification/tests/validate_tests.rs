use contact_manager::errors::{AppError, ValidationError};
use contact_manager::validate::{is_valid_account_id, roster_contains, validate_accounts};

#[test]
fn test_validate_accounts_valid() {
    let accounts = vec!["123456789012".to_string()];
    let org_accounts = vec!["123456789012".to_string(), "234567890123".to_string()];
    assert!(validate_accounts(&accounts, &org_accounts).is_ok());
}

#[test]
fn test_validate_accounts_invalid_length() {
    let accounts = vec!["12345".to_string()];
    let org_accounts = vec!["123456789012".to_string()];
    let result = validate_accounts(&accounts, &org_accounts);
    assert!(matches!(
        result,
        Err(AppError::Validation(ValidationError::InvalidAccountId { .. }))
    ));
}

#[test]
fn test_validate_accounts_not_in_org() {
    let accounts = vec!["999999999999".to_string()];
    let org_accounts = vec!["123456789012".to_string()];
    let result = validate_accounts(&accounts, &org_accounts);
    assert!(matches!(
        result,
        Err(AppError::Validation(
            ValidationError::AccountNotInOrganization { .. }
        ))
    ));
}

#[test]
fn test_validate_accounts_empty() {
    let accounts: Vec<String> = vec![];
    let org_accounts = vec!["123456789012".to_string()];
    let result = validate_accounts(&accounts, &org_accounts);
    assert!(matches!(
        result,
        Err(AppError::Validation(ValidationError::NoAccountsProvided))
    ));
}

#[test]
fn validate_accepts_every_valid_member() {
    let accounts = vec!["123456789012".to_string(), "234567890123".to_string()];
    let org_accounts = vec![
        "234567890123".to_string(),
        "123456789012".to_string(),
        "345678901234".to_string(),
    ];
    assert!(validate_accounts(&accounts, &org_accounts).is_ok());
}

#[test]
fn validate_rejects_twelve_chars_with_letter() {
    let accounts = vec!["12345678901a".to_string()];
    let org_accounts = vec!["123456789012".to_string()];
    let result = validate_accounts(&accounts, &org_accounts);
    match result {
        Err(AppError::Validation(ValidationError::InvalidAccountId { account_id })) => {
            assert_eq!(account_id, "12345678901a");
        }
        _ => panic!("expected InvalidAccountId"),
    }
}

#[test]
fn validate_names_the_absent_id() {
    let accounts = vec!["123456789012".to_string(), "999999999999".to_string()];
    let org_accounts = vec!["123456789012".to_string()];
    match validate_accounts(&accounts, &org_accounts) {
        Err(AppError::Validation(ValidationError::AccountNotInOrganization { account_id })) => {
            assert_eq!(account_id, "999999999999");
        }
        _ => panic!("expected AccountNotInOrganization"),
    }
}

#[test]
fn validate_reports_first_violation_only() {
    // fail-fast: the roster violation at position 0 wins over the
    // malformed id at position 1
    let accounts = vec!["999999999999".to_string(), "12345".to_string()];
    let org_accounts = vec!["123456789012".to_string()];
    assert!(matches!(
        validate_accounts(&accounts, &org_accounts),
        Err(AppError::Validation(
            ValidationError::AccountNotInOrganization { .. }
        ))
    ));
}

#[test]
fn account_id_shape_is_twelve_digits() {
    assert!(is_valid_account_id("123456789012"));
    assert!(!is_valid_account_id("1234567890123"));
    assert!(!is_valid_account_id("12345678901"));
    assert!(!is_valid_account_id("12345678901x"));
    assert!(!is_valid_account_id(""));
}

#[test]
fn roster_membership_is_exact() {
    let roster = vec!["123456789012".to_string(), "234567890123".to_string()];
    assert!(roster_contains(&roster, "234567890123"));
    assert!(!roster_contains(&roster, "234567890124"));
    assert!(!roster_contains(&roster, ""));
}
