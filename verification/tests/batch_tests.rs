use contact_manager::batch::{run_batch, BatchReport, CellStatus, OpKind};
use contact_manager::contact::ContactRecord;
use contact_manager::errors::{AccountError, AppError};
use contact_manager::outcome::OperationOutcome;
use contact_manager::retry::{AttemptResult, RetryConfig};

fn one_shot() -> RetryConfig {
    RetryConfig {
        max_attempts: 1,
        base_delay_ms: 100,
        max_delay_ms: 5000,
    }
}

fn accounts2() -> Vec<String> {
    vec!["111111111111".to_string(), "222222222222".to_string()]
}

fn types2() -> Vec<String> {
    vec!["Billing".to_string(), "Operations".to_string()]
}

#[test]
fn list_of_empty_cells_succeeds() {
    // 2 accounts x 2 subtypes, every read finds no record
    let scripts = vec![
        vec![AttemptResult::NoRecord],
        vec![AttemptResult::NoRecord],
        vec![AttemptResult::NoRecord],
        vec![AttemptResult::NoRecord],
    ];
    let t: BatchReport = run_batch(OpKind::List, &one_shot(), &accounts2(), &types2(), &scripts);
    assert!(matches!(t.outcome, OperationOutcome::Success));
    assert_eq!(t.cells.len(), 4);
    assert_eq!(t.success_count, 4);
    for cell in &t.cells {
        assert!(matches!(cell.status, CellStatus::NoRecord));
    }
}

#[test]
fn cells_are_visited_accounts_outer_types_inner() {
    let scripts = vec![
        vec![AttemptResult::NoRecord],
        vec![AttemptResult::NoRecord],
        vec![AttemptResult::NoRecord],
        vec![AttemptResult::NoRecord],
    ];
    let t = run_batch(OpKind::List, &one_shot(), &accounts2(), &types2(), &scripts);
    assert_eq!(t.cells[0].account_id, "111111111111");
    assert_eq!(t.cells[0].contact_type, "Billing");
    assert_eq!(t.cells[1].account_id, "111111111111");
    assert_eq!(t.cells[1].contact_type, "Operations");
    assert_eq!(t.cells[2].account_id, "222222222222");
    assert_eq!(t.cells[2].contact_type, "Billing");
    assert_eq!(t.cells[3].account_id, "222222222222");
    assert_eq!(t.cells[3].contact_type, "Operations");
}

#[test]
fn one_denied_cell_gives_partial_success() {
    // 3 cells succeed, 1 returns AccessDenied
    let scripts = vec![
        vec![AttemptResult::NoRecord],
        vec![AttemptResult::Failed("AccessDeniedException".to_string())],
        vec![AttemptResult::NoRecord],
        vec![AttemptResult::NoRecord],
    ];
    let t = run_batch(OpKind::List, &one_shot(), &accounts2(), &types2(), &scripts);
    match &t.outcome {
        OperationOutcome::PartialSuccess { errors } => {
            assert_eq!(errors.len(), 1);
            assert!(matches!(
                errors[0],
                AppError::Account(AccountError::AccessDenied { .. })
            ));
        }
        _ => panic!("expected PartialSuccess"),
    }
    assert!(matches!(t.cells[1].status, CellStatus::AccessDenied));
    assert_eq!(t.success_count, 3);
}

#[test]
fn all_cells_failing_gives_failure_with_first_error() {
    let scripts = vec![
        vec![AttemptResult::Failed("boom one".to_string())],
        vec![AttemptResult::Failed("boom two".to_string())],
        vec![AttemptResult::Failed("boom three".to_string())],
        vec![AttemptResult::Failed("boom four".to_string())],
    ];
    let t = run_batch(OpKind::List, &one_shot(), &accounts2(), &types2(), &scripts);
    match &t.outcome {
        OperationOutcome::Failure(AppError::Account(AccountError::GetAlternateContact {
            account_id,
            contact_type,
            message,
        })) => {
            assert_eq!(account_id, "111111111111");
            assert_eq!(contact_type, "Billing");
            assert_eq!(message, "boom one");
        }
        _ => panic!("expected Failure with the first cell's error"),
    }
    assert_eq!(t.success_count, 0);
    assert_eq!(t.cells.len(), 4);
}

#[test]
fn persistent_throttle_aborts_the_batch() {
    // the throttled cell ends the batch; later cells are never visited
    let config = RetryConfig::default();
    let throttle = || AttemptResult::Failed("Throttling".to_string());
    let ok3 = || {
        vec![
            AttemptResult::NoRecord,
            AttemptResult::NoRecord,
            AttemptResult::NoRecord,
        ]
    };
    let scripts = vec![ok3(), vec![throttle(), throttle(), throttle()], ok3(), ok3()];
    let t = run_batch(OpKind::List, &config, &accounts2(), &types2(), &scripts);
    assert!(matches!(
        t.outcome,
        OperationOutcome::Failure(AppError::Account(AccountError::TooManyRequests))
    ));
    assert_eq!(t.cells.len(), 2);
    assert!(matches!(t.cells[1].status, CellStatus::Throttled));
}

#[test]
fn throttle_abort_ignores_earlier_successes() {
    let config = RetryConfig::default();
    let throttle = || AttemptResult::Failed("TooManyRequests".to_string());
    let scripts = vec![
        vec![
            AttemptResult::NoRecord,
            AttemptResult::NoRecord,
            AttemptResult::NoRecord,
        ],
        vec![
            AttemptResult::NoRecord,
            AttemptResult::NoRecord,
            AttemptResult::NoRecord,
        ],
        vec![
            AttemptResult::NoRecord,
            AttemptResult::NoRecord,
            AttemptResult::NoRecord,
        ],
        vec![throttle(), throttle(), throttle()],
    ];
    let t = run_batch(OpKind::List, &config, &accounts2(), &types2(), &scripts);
    assert!(matches!(t.outcome, OperationOutcome::Failure(_)));
    assert_eq!(t.success_count, 3);
}

#[test]
fn delete_treats_not_found_as_success() {
    // remote reports NotFound: the cell counts as success, not an error
    let accounts = vec!["111111111111".to_string()];
    let types = vec!["Billing".to_string()];
    let scripts = vec![vec![AttemptResult::Failed(
        "ResourceNotFoundException".to_string(),
    )]];
    let t = run_batch(OpKind::Delete, &one_shot(), &accounts, &types, &scripts);
    assert!(matches!(t.outcome, OperationOutcome::Success));
    assert_eq!(t.success_count, 1);
    assert!(matches!(t.cells[0].status, CellStatus::NoRecord));
}

#[test]
fn update_treats_not_found_as_error() {
    let accounts = vec!["111111111111".to_string()];
    let types = vec!["Billing".to_string()];
    let scripts = vec![vec![AttemptResult::Failed(
        "ResourceNotFoundException".to_string(),
    )]];
    let t = run_batch(OpKind::Update, &one_shot(), &accounts, &types, &scripts);
    match &t.outcome {
        OperationOutcome::Failure(AppError::Account(AccountError::PutAlternateContact {
            ..
        })) => {}
        _ => panic!("expected a put failure"),
    }
    assert_eq!(t.success_count, 0);
}

#[test]
fn list_reports_found_records() {
    let accounts = vec!["111111111111".to_string()];
    let types = vec!["Security".to_string()];
    let record = ContactRecord {
        email_address: "sec@example.com".to_string(),
        name: "Sec Team".to_string(),
        phone_number: "+15550000000".to_string(),
        title: "Security".to_string(),
    };
    let scripts = vec![vec![AttemptResult::Found(record)]];
    let t = run_batch(OpKind::List, &one_shot(), &accounts, &types, &scripts);
    match &t.cells[0].status {
        CellStatus::Record(r) => assert_eq!(r.email_address, "sec@example.com"),
        _ => panic!("expected a record"),
    }
    assert!(matches!(t.outcome, OperationOutcome::Success));
}

#[test]
fn unknown_subtype_is_recorded_and_skipped() {
    let accounts = vec!["111111111111".to_string()];
    let types = vec!["Billing".to_string(), "Bogus".to_string()];
    let scripts = vec![vec![AttemptResult::NoRecord], vec![AttemptResult::NoRecord]];
    let t = run_batch(OpKind::List, &one_shot(), &accounts, &types, &scripts);
    assert!(matches!(t.cells[1].status, CellStatus::InvalidType));
    match &t.outcome {
        OperationOutcome::PartialSuccess { errors } => {
            assert_eq!(errors.len(), 1);
            match &errors[0] {
                AppError::UnknownContactType(s) => assert_eq!(s, "BOGUS"),
                _ => panic!("expected UnknownContactType"),
            }
        }
        _ => panic!("expected PartialSuccess"),
    }
}

#[test]
fn update_applies_to_every_cell() {
    let scripts = vec![
        vec![AttemptResult::Done],
        vec![AttemptResult::Done],
        vec![AttemptResult::Done],
        vec![AttemptResult::Done],
    ];
    let t = run_batch(OpKind::Update, &one_shot(), &accounts2(), &types2(), &scripts);
    assert!(matches!(t.outcome, OperationOutcome::Success));
    assert_eq!(t.success_count, 4);
    for cell in &t.cells {
        assert!(matches!(cell.status, CellStatus::Done));
    }
}

#[test]
fn outage_surviving_retries_accumulates_instead_of_aborting() {
    // ServiceUnavailable exhaustion is an ordinary cell error
    let config = RetryConfig::default();
    let outage = || AttemptResult::Failed("ServiceUnavailable".to_string());
    let scripts = vec![
        vec![outage(), outage(), outage()],
        vec![
            AttemptResult::NoRecord,
            AttemptResult::NoRecord,
            AttemptResult::NoRecord,
        ],
    ];
    let accounts = vec!["111111111111".to_string()];
    let types = vec!["Billing".to_string(), "Operations".to_string()];
    let t = run_batch(OpKind::List, &config, &accounts, &types, &scripts);
    match &t.outcome {
        OperationOutcome::PartialSuccess { errors } => assert_eq!(errors.len(), 1),
        _ => panic!("expected PartialSuccess"),
    }
    assert_eq!(t.cells.len(), 2);
    assert!(matches!(t.cells[0].status, CellStatus::Error));
}
