use contact_manager::classify::{
    classify, contains_substr, error_is_access_denied, error_is_not_found,
    error_is_service_unavailable, error_is_throttling, is_transient, ErrorKind,
};

#[test]
fn access_denied_identifiers() {
    assert!(error_is_access_denied("service error: AccessDeniedException"));
    assert!(error_is_access_denied("UnauthorizedAccess for user"));
    assert!(!error_is_access_denied("TooManyRequests"));
}

#[test]
fn throttling_identifiers() {
    assert!(error_is_throttling("TooManyRequestsException"));
    assert!(error_is_throttling("Throttling: rate exceeded"));
    assert!(!error_is_throttling("AccessDenied"));
}

#[test]
fn service_unavailable_identifiers() {
    assert!(error_is_service_unavailable("ServiceUnavailable"));
    assert!(error_is_service_unavailable("InternalError while routing"));
    assert!(error_is_service_unavailable("TimeoutError: no response"));
    assert!(error_is_service_unavailable("DispatchFailure(connect)"));
    assert!(!error_is_service_unavailable("ResourceNotFound"));
}

#[test]
fn not_found_identifiers() {
    assert!(error_is_not_found("ResourceNotFoundException: no contact"));
    assert!(error_is_not_found("ResourceNotFound"));
    assert!(!error_is_not_found("InternalError"));
}

#[test]
fn classify_maps_each_identifier() {
    assert!(matches!(classify("AccessDenied"), ErrorKind::AccessDenied));
    assert!(matches!(classify("Throttling"), ErrorKind::Throttled));
    assert!(matches!(
        classify("ServiceUnavailable"),
        ErrorKind::ServiceUnavailable
    ));
    assert!(matches!(classify("ResourceNotFound"), ErrorKind::NotFound));
}

#[test]
fn classify_prefers_access_denial() {
    // a text carrying several identifiers classifies by priority
    assert!(matches!(
        classify("AccessDenied after Throttling"),
        ErrorKind::AccessDenied
    ));
    assert!(matches!(
        classify("Throttling then InternalError"),
        ErrorKind::Throttled
    ));
}

#[test]
fn classify_keeps_unknown_text() {
    match classify("something else entirely") {
        ErrorKind::Other(detail) => assert_eq!(detail, "something else entirely"),
        _ => panic!("expected Other"),
    }
}

#[test]
fn transient_kinds_are_throttle_and_outage() {
    assert!(is_transient(&ErrorKind::Throttled));
    assert!(is_transient(&ErrorKind::ServiceUnavailable));
    assert!(!is_transient(&ErrorKind::AccessDenied));
    assert!(!is_transient(&ErrorKind::NotFound));
    assert!(!is_transient(&ErrorKind::Other("x".to_string())));
}

#[test]
fn substring_search_edges() {
    assert!(contains_substr("abc", ""));
    assert!(contains_substr("abc", "abc"));
    assert!(contains_substr("xabcx", "abc"));
    assert!(!contains_substr("ab", "abc"));
    assert!(!contains_substr("", "a"));
    assert!(contains_substr("", ""));
    assert!(!contains_substr("aabab", "abb"));
}
