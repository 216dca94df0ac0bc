use contact_manager::contact::{
    parse_contact_type, valid_email_input, valid_phone_input, ContactType,
};
use contact_manager::errors::AppError;

#[test]
fn test_parse_contact_type() {
    assert!(matches!(
        parse_contact_type("billing"),
        Ok(ContactType::Billing)
    ));
    assert!(matches!(
        parse_contact_type("OPERATIONS"),
        Ok(ContactType::Operations)
    ));
    assert!(matches!(
        parse_contact_type("Security"),
        Ok(ContactType::Security)
    ));
    assert!(matches!(
        parse_contact_type("invalid"),
        Err(AppError::UnknownContactType(_))
    ));
}

#[test]
fn unknown_contact_type_keeps_uppercased_text() {
    match parse_contact_type("weird input") {
        Err(AppError::UnknownContactType(s)) => assert_eq!(s, "WEIRD INPUT"),
        _ => panic!("expected UnknownContactType"),
    }
}

#[test]
fn contact_type_parsing_is_case_insensitive() {
    assert!(matches!(
        parse_contact_type("BiLLiNg"),
        Ok(ContactType::Billing)
    ));
    assert!(matches!(
        parse_contact_type("security"),
        Ok(ContactType::Security)
    ));
}

#[test]
fn email_input_needs_at_sign() {
    assert!(valid_email_input("example@mail.com"));
    assert!(!valid_email_input("example.mail.com"));
    assert!(!valid_email_input(""));
}

#[test]
fn phone_input_needs_eight_digits() {
    assert!(valid_phone_input("+5511900002222"));
    assert!(valid_phone_input("12345678"));
    assert!(!valid_phone_input("1234567"));
    assert!(!valid_phone_input("+1-23-45-6a"));
}
