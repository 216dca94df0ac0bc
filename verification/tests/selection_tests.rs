use contact_manager::selection::{contact_types_for_selection, parse_account_list};

#[test]
fn account_list_splits_on_commas_and_trims() {
    let r = parse_account_list("111111111111, 222222222222 ,333333333333");
    assert_eq!(
        r,
        vec![
            "111111111111".to_string(),
            "222222222222".to_string(),
            "333333333333".to_string()
        ]
    );
}

#[test]
fn account_list_drops_empty_pieces() {
    let r = parse_account_list("111111111111,, ,222222222222,");
    assert_eq!(r, vec!["111111111111".to_string(), "222222222222".to_string()]);
}

#[test]
fn account_list_of_blank_input_is_empty() {
    assert!(parse_account_list("").is_empty());
    assert!(parse_account_list("  ,  ,").is_empty());
}

#[test]
fn single_id_without_commas() {
    assert_eq!(parse_account_list(" 123456789012 "), vec!["123456789012".to_string()]);
}

#[test]
fn all_selection_expands_to_three_types() {
    let r = contact_types_for_selection("All");
    assert_eq!(
        r,
        vec![
            "Billing".to_string(),
            "Operations".to_string(),
            "Security".to_string()
        ]
    );
}

#[test]
fn single_selection_stays_single() {
    assert_eq!(
        contact_types_for_selection("Security"),
        vec!["Security".to_string()]
    );
}
