use contact_manager::errors::S3Error;
use contact_manager::export::{
    classify_put_object_error, folder_display_name, make_export_key, normalize_folder_path,
    parent_prefix,
};
use contact_manager::roster::{caller_account_id, classify_list_accounts_error};
use contact_manager::errors::{AppError, OrganizationsError, StsError};

#[test]
fn export_key_joins_prefix_stem_and_timestamp() {
    assert_eq!(
        make_export_key("reports/", "01-02-2024_10-30-00"),
        "reports/alternate-contact-list_01-02-2024_10-30-00.json"
    );
    assert_eq!(
        make_export_key("", "t"),
        "alternate-contact-list_t.json"
    );
}

#[test]
fn upload_errors_classify_by_bucket_then_access() {
    assert!(matches!(
        classify_put_object_error("NoSuchBucket: gone", "b", "k"),
        S3Error::NoSuchBucket { .. }
    ));
    assert!(matches!(
        classify_put_object_error("AccessDenied", "b", "k"),
        S3Error::AccessDenied { .. }
    ));
    match classify_put_object_error("disk full", "b", "k") {
        S3Error::PutObject {
            bucket,
            key,
            message,
        } => {
            assert_eq!(bucket, "b");
            assert_eq!(key, "k");
            assert_eq!(message, "disk full");
        }
        _ => panic!("expected PutObject"),
    }
}

#[test]
fn parent_prefix_climbs_one_level() {
    assert_eq!(parent_prefix("a/b/"), "a/");
    assert_eq!(parent_prefix("a/b/c/"), "a/b/");
    assert_eq!(parent_prefix("a/"), "");
    assert_eq!(parent_prefix("loose"), "");
}

#[test]
fn folder_names_drop_prefix_and_slash() {
    assert_eq!(folder_display_name("docs/reports/", "docs/"), "reports");
    assert_eq!(folder_display_name("reports/", ""), "reports");
    assert_eq!(folder_display_name("a/b/c/", "a/"), "b/c");
}

#[test]
fn manual_paths_gain_a_trailing_slash() {
    assert_eq!(normalize_folder_path("  folder/sub "), "folder/sub/");
    assert_eq!(normalize_folder_path("folder/"), "folder/");
    assert_eq!(normalize_folder_path("   "), "");
}

#[test]
fn roster_errors_classify_by_access_then_outage() {
    assert!(matches!(
        classify_list_accounts_error("AccessDeniedException"),
        OrganizationsError::AccessDenied
    ));
    assert!(matches!(
        classify_list_accounts_error("ServiceUnavailable"),
        OrganizationsError::ServiceUnavailable
    ));
    match classify_list_accounts_error("weird") {
        OrganizationsError::ListAccounts { message } => assert_eq!(message, "weird"),
        _ => panic!("expected ListAccounts"),
    }
}

#[test]
fn caller_identity_needs_an_account() {
    match caller_account_id(Some("123456789012".to_string())) {
        Ok(id) => assert_eq!(id, "123456789012"),
        Err(_) => panic!("expected the account id"),
    }
    assert!(matches!(
        caller_account_id(None),
        Err(AppError::Sts(StsError::NoAccountId))
    ));
}
