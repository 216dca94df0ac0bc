//! The batch orchestrator.
//!
//! A batch applies one operation (read, update or delete) to every cell of
//! the account × contact-type cross-product, accounts in the outer loop
//! and contact types in the inner loop, in input order.  Each cell's
//! remote call goes through the retry executor; the executor's final
//! result is then reclassified per operation:
//!
//! - a missing record counts as success for a read ("no record") and for
//!   a delete ("already deleted"), but not for an update;
//! - an access denial is recorded and the batch continues;
//! - rate limiting that survives the retry budget aborts the whole batch
//!   at once, whatever earlier cells achieved;
//! - any other failure is recorded and the batch continues;
//! - a cell whose contact-type text parses to none of the known kinds is
//!   recorded as an error and never sent to the remote.
//!
//! The remote is modeled as one script per cell: entry `i` of a cell's
//! script is what the remote would hand back on that cell's attempt
//! `i + 1`.  A driver doing real calls takes its per-cell decisions from
//! the same verified pieces ([`crate::contact::parse_contact_type`],
//! [`crate::classify::classify`], [`crate::retry`] and
//! [`crate::outcome::finish_outcome`]).

use vstd::arithmetic::div_mod::lemma_fundamental_div_mod_converse;
use vstd::prelude::*;

use crate::classify::{
    classified_access_denied, classified_not_found, classified_throttled, classify, ErrorKind,
};
use crate::contact::{parse_contact_type, valid_contact_type, ContactRecord};
use crate::errors::{AccountError, AppError};
use crate::outcome::{finish_outcome, OperationOutcome};
use crate::retry::{retry_result, run_retry, AttemptResult, RetryConfig};

verus! {

/// The operation a batch applies to each cell.
#[derive(PartialEq, Eq, Structural, Clone, Copy, Debug)]
pub enum OpKind {
    List,
    Update,
    Delete,
}

/// What one visited cell ended as.
#[derive(Debug)]
pub enum CellStatus {
    /// A read found this record.
    Record(ContactRecord),
    /// A read found no record, or a delete found the record already gone.
    NoRecord,
    /// An update or delete was applied.
    Done,
    /// The remote denied access to the cell's account.
    AccessDenied,
    /// Rate limiting survived the retry budget; the batch stopped here.
    Throttled,
    /// The remote call failed in some other way.
    Error,
    /// The contact-type text parses to none of the known kinds; the cell
    /// was never sent to the remote.
    InvalidType,
}

/// One visited cell's report, in visitation order.
#[derive(Debug)]
pub struct CellReport {
    pub account_id: String,
    pub contact_type: String,
    pub status: CellStatus,
    pub error: Option<AppError>,
}

/// What a batch run did: the outcome, one report per visited cell in
/// visitation order, and the number of cells that succeeded.
#[derive(Debug)]
pub struct BatchReport {
    pub outcome: OperationOutcome,
    pub cells: Vec<CellReport>,
    pub success_count: usize,
}

/// A script entry the remote could hand back for this operation: reads
/// yield records or their absence, writes and deletes yield completion.
pub open spec fn fits_op(op: OpKind, r: AttemptResult) -> bool {
    match r {
        AttemptResult::Found(_) => op is List,
        AttemptResult::NoRecord => op is List,
        AttemptResult::Done => op is Update || op is Delete,
        AttemptResult::Failed(_) => true,
    }
}

/// A well-formed cell script: long enough for the retry budget, with
/// entries the operation could produce.
pub open spec fn script_fits(op: OpKind, config: RetryConfig, script: Seq<AttemptResult>) -> bool {
    script.len() >= config.max_attempts && (forall|i: int|
        0 <= i < script.len() ==> fits_op(op, #[trigger] script[i]))
}

/// The cell ends in a rate-limit failure that survived the retry budget,
/// which aborts the whole batch.
pub open spec fn cell_aborts(
    op: OpKind,
    config: RetryConfig,
    ct: Seq<char>,
    script: Seq<AttemptResult>,
) -> bool {
    valid_contact_type(ct) && (retry_result(config, script) matches AttemptResult::Failed(m)
        && classified_throttled(m@))
}

/// The cell counts as a success: the call completed, or the record was
/// absent under a read or delete.
pub open spec fn cell_succeeds(
    op: OpKind,
    config: RetryConfig,
    ct: Seq<char>,
    script: Seq<AttemptResult>,
) -> bool {
    valid_contact_type(ct) && match retry_result(config, script) {
        AttemptResult::Found(_) => true,
        AttemptResult::NoRecord => true,
        AttemptResult::Done => true,
        AttemptResult::Failed(m) => classified_not_found(m@) && (op is List || op is Delete),
    }
}

/// The status a visited cell reports.
pub open spec fn cell_status_spec(
    op: OpKind,
    config: RetryConfig,
    ct: Seq<char>,
    script: Seq<AttemptResult>,
) -> CellStatus {
    if !valid_contact_type(ct) {
        CellStatus::InvalidType
    } else {
        match retry_result(config, script) {
            AttemptResult::Found(rec) => CellStatus::Record(rec),
            AttemptResult::NoRecord => CellStatus::NoRecord,
            AttemptResult::Done => CellStatus::Done,
            AttemptResult::Failed(m) => {
                if classified_not_found(m@) && (op is List || op is Delete) {
                    CellStatus::NoRecord
                } else if classified_access_denied(m@) {
                    CellStatus::AccessDenied
                } else if classified_throttled(m@) {
                    CellStatus::Throttled
                } else {
                    CellStatus::Error
                }
            },
        }
    }
}

/// The error a failed cell records: the unknown contact-type text
/// (uppercased), an access denial or rate-limit marker, or the
/// operation's own error carrying account, contact type and message.
pub open spec fn cell_error_spec(
    op: OpKind,
    account: String,
    ct: String,
    config: RetryConfig,
    script: Seq<AttemptResult>,
    e: AppError,
) -> bool {
    if !valid_contact_type(ct@) {
        e matches AppError::UnknownContactType(s) && s@ == crate::text::to_upper_seq(ct@)
    } else {
        match retry_result(config, script) {
            AttemptResult::Failed(m) => {
                if classified_not_found(m@) && (op is List || op is Delete) {
                    false
                } else if classified_access_denied(m@) {
                    e == AppError::Account(AccountError::AccessDenied { account_id: account })
                } else if classified_throttled(m@) {
                    e == AppError::Account(AccountError::TooManyRequests)
                } else {
                    match op {
                        OpKind::List => e == AppError::Account(
                            AccountError::GetAlternateContact {
                                account_id: account,
                                contact_type: ct,
                                message: m,
                            },
                        ),
                        OpKind::Update => e == AppError::Account(
                            AccountError::PutAlternateContact {
                                account_id: account,
                                contact_type: ct,
                                message: m,
                            },
                        ),
                        OpKind::Delete => e == AppError::Account(
                            AccountError::DeleteAlternateContact {
                                account_id: account,
                                contact_type: ct,
                                message: m,
                            },
                        ),
                    }
                }
            },
            _ => false,
        }
    }
}

/// Processes one cell: parses the contact type, runs the retry executor
/// over the cell's script, and reclassifies the final result for this
/// operation.  The second component says whether the batch must abort.
fn run_cell(
    op: OpKind,
    config: &RetryConfig,
    account_id: &String,
    ct_name: &String,
    script: &Vec<AttemptResult>,
) -> (r: (CellReport, bool))
    requires
        1 <= config.max_attempts,
        script_fits(op, *config, script@),
    ensures
        r.0.account_id == *account_id,
        r.0.contact_type == *ct_name,
        r.0.status == cell_status_spec(op, *config, ct_name@, script@),
        (r.0.error is Some) == !cell_succeeds(op, *config, ct_name@, script@),
        r.0.error matches Some(e) ==> cell_error_spec(op, *account_id, *ct_name, *config, script@, e),
        r.1 == cell_aborts(op, *config, ct_name@, script@),
{
    match parse_contact_type(ct_name.as_str()) {
        Err(e) => {
            return (
                CellReport {
                    account_id: account_id.clone(),
                    contact_type: ct_name.clone(),
                    status: CellStatus::InvalidType,
                    error: Some(e),
                },
                false,
            );
        },
        Ok(_) => {},
    }
    let trace = run_retry(config, script);
    let result = &script[trace.attempts - 1];
    proof {
        assert(*result == retry_result(*config, script@));
    }
    let (status, error, abort): (CellStatus, Option<AppError>, bool) = match result {
        AttemptResult::Found(rec) => (CellStatus::Record(rec.duplicate()), None, false),
        AttemptResult::NoRecord => (CellStatus::NoRecord, None, false),
        AttemptResult::Done => (CellStatus::Done, None, false),
        AttemptResult::Failed(m) => {
            let kind = classify(m.as_str());
            let not_found_ok = match kind {
                ErrorKind::NotFound => match op {
                    OpKind::List => true,
                    OpKind::Delete => true,
                    OpKind::Update => false,
                },
                _ => false,
            };
            if not_found_ok {
                (CellStatus::NoRecord, None, false)
            } else {
                match kind {
                    ErrorKind::AccessDenied => (
                        CellStatus::AccessDenied,
                        Some(
                            AppError::Account(
                                AccountError::AccessDenied { account_id: account_id.clone() },
                            ),
                        ),
                        false,
                    ),
                    ErrorKind::Throttled => (
                        CellStatus::Throttled,
                        Some(AppError::Account(AccountError::TooManyRequests)),
                        true,
                    ),
                    _ => {
                        let err = match op {
                            OpKind::List => AccountError::GetAlternateContact {
                                account_id: account_id.clone(),
                                contact_type: ct_name.clone(),
                                message: m.clone(),
                            },
                            OpKind::Update => AccountError::PutAlternateContact {
                                account_id: account_id.clone(),
                                contact_type: ct_name.clone(),
                                message: m.clone(),
                            },
                            OpKind::Delete => AccountError::DeleteAlternateContact {
                                account_id: account_id.clone(),
                                contact_type: ct_name.clone(),
                                message: m.clone(),
                            },
                        };
                        (CellStatus::Error, Some(AppError::Account(err)), false)
                    },
                }
            }
        },
    };
    (
        CellReport {
            account_id: account_id.clone(),
            contact_type: ct_name.clone(),
            status,
            error,
        },
        abort,
    )
}

/// The errors of a cell sequence, in visitation order.
pub open spec fn errors_of_cells(cells: Seq<CellReport>) -> Seq<AppError>
    decreases cells.len(),
{
    if cells.len() == 0 {
        Seq::empty()
    } else {
        errors_of_cells(cells.drop_last()) + match cells.last().error {
            Some(e) => seq![e],
            None => Seq::empty(),
        }
    }
}

/// The number of cells of the sequence that succeeded (no error).
pub open spec fn successes_of_cells(cells: Seq<CellReport>) -> int
    decreases cells.len(),
{
    if cells.len() == 0 {
        0
    } else {
        successes_of_cells(cells.drop_last()) + if cells.last().error is None {
            1int
        } else {
            0int
        }
    }
}

/// The report of cell `c` is what the inputs dictate: its account is
/// `accounts[c / k]`, its contact type `types[c % k]` (accounts outer,
/// types inner), and its status and error follow from its script.
pub open spec fn cell_report_ok(
    op: OpKind,
    config: RetryConfig,
    accounts: Seq<String>,
    types: Seq<String>,
    scripts: Seq<Vec<AttemptResult>>,
    r: CellReport,
    c: int,
) -> bool {
    let k = types.len() as int;
    let account = accounts[c / k];
    let ct = types[c % k];
    let script = scripts[c]@;
    &&& r.account_id == account
    &&& r.contact_type == ct
    &&& r.status == cell_status_spec(op, config, ct@, script)
    &&& (r.error is Some) == !cell_succeeds(op, config, ct@, script)
    &&& (r.error matches Some(e) ==> cell_error_spec(op, account, ct, config, script, e))
}

/// The last visited cell aborted the batch.
pub open spec fn aborted_batch(
    op: OpKind,
    config: RetryConfig,
    types: Seq<String>,
    scripts: Seq<Vec<AttemptResult>>,
    cells: Seq<CellReport>,
) -> bool {
    cells.len() >= 1 && cell_aborts(
        op,
        config,
        types[(cells.len() - 1) % types.len() as int]@,
        scripts[cells.len() - 1]@,
    )
}

/// Runs a whole batch over scripted cells.
///
/// Cells are visited accounts-outer, contact-types-inner, in input order;
/// cell `c` (of account `c / k` and contact type `c % k`, where `k` is
/// the number of contact types) reads script `c`.  Processing stops after
/// the last cell, or right after a cell whose rate-limit failure survived
/// the retry budget — then the outcome is `Failure(TooManyRequests)`
/// regardless of earlier successes.  Otherwise the outcome is `Success`
/// when no cell erred, `PartialSuccess` with the errors in visitation
/// order when some cells erred and some succeeded, and `Failure` with the
/// first error when every cell erred.
pub fn run_batch(
    op: OpKind,
    config: &RetryConfig,
    accounts: &Vec<String>,
    contact_types: &Vec<String>,
    scripts: &Vec<Vec<AttemptResult>>,
) -> (t: BatchReport)
    requires
        1 <= config.max_attempts,
        scripts@.len() == accounts@.len() * contact_types@.len(),
        forall|c: int| 0 <= c < scripts@.len() ==> script_fits(op, *config, #[trigger] scripts@[c]@),
    ensures
        t.cells@.len() <= scripts@.len(),
        t.success_count == successes_of_cells(t.cells@),
        forall|c: int|
            0 <= c < t.cells@.len() ==> cell_report_ok(
                op,
                *config,
                accounts@,
                contact_types@,
                scripts@,
                #[trigger] t.cells@[c],
                c,
            ),
        forall|c: int|
            0 <= c < t.cells@.len() - 1 ==> !cell_aborts(
                op,
                *config,
                contact_types@[c % contact_types@.len() as int]@,
                #[trigger] scripts@[c]@,
            ),
        aborted_batch(op, *config, contact_types@, scripts@, t.cells@) ==> t.outcome
            == OperationOutcome::Failure(AppError::Account(AccountError::TooManyRequests)),
        !aborted_batch(op, *config, contact_types@, scripts@, t.cells@) ==> {
            &&& t.cells@.len() == scripts@.len()
            &&& (errors_of_cells(t.cells@).len() == 0 ==> t.outcome is Success)
            &&& (errors_of_cells(t.cells@).len() > 0 && t.success_count > 0 ==> (t.outcome
                matches OperationOutcome::PartialSuccess { errors: es } && es@ == errors_of_cells(
                t.cells@,
            )))
            &&& (errors_of_cells(t.cells@).len() > 0 && t.success_count == 0 ==> (t.outcome
                matches OperationOutcome::Failure(e) && e == errors_of_cells(t.cells@)[0]))
        },
{
    let k = contact_types.len();
    let n_acc = accounts.len();
    let total = scripts.len();
    let mut cells: Vec<CellReport> = Vec::new();
    let mut errors: Vec<AppError> = Vec::new();
    let mut success_count: usize = 0;
    let mut a: usize = 0;
    while a < n_acc
        invariant
            n_acc == accounts@.len(),
            k == contact_types@.len(),
            1 <= config.max_attempts,
            total == scripts@.len() == accounts@.len() * contact_types@.len(),
            forall|c: int|
                0 <= c < scripts@.len() ==> script_fits(op, *config, #[trigger] scripts@[c]@),
            a <= n_acc,
            cells@.len() == a * k,
            success_count <= cells@.len(),
            success_count == successes_of_cells(cells@),
            errors@ == errors_of_cells(cells@),
            forall|c: int|
                0 <= c < cells@.len() ==> cell_report_ok(
                    op,
                    *config,
                    accounts@,
                    contact_types@,
                    scripts@,
                    #[trigger] cells@[c],
                    c,
                ),
            forall|c: int|
                0 <= c < cells@.len() ==> !cell_aborts(
                    op,
                    *config,
                    contact_types@[c % contact_types@.len() as int]@,
                    #[trigger] scripts@[c]@,
                ),
        decreases n_acc - a,
    {
        proof {
            assert((a as int) * (k as int) <= (n_acc as int) * (k as int)) by (nonlinear_arith)
                requires
                    0 <= a <= n_acc,
                    0 <= k,
            ;
        }
        let mut ti: usize = 0;
        while ti < k
            invariant
                n_acc == accounts@.len(),
                k == contact_types@.len(),
                1 <= config.max_attempts,
                total == scripts@.len() == accounts@.len() * contact_types@.len(),
                forall|c: int|
                    0 <= c < scripts@.len() ==> script_fits(op, *config, #[trigger] scripts@[c]@),
                a < n_acc,
                ti <= k,
                cells@.len() == a * k + ti,
                success_count <= cells@.len(),
                success_count == successes_of_cells(cells@),
                errors@ == errors_of_cells(cells@),
                forall|c: int|
                    0 <= c < cells@.len() ==> cell_report_ok(
                        op,
                        *config,
                        accounts@,
                        contact_types@,
                        scripts@,
                        #[trigger] cells@[c],
                        c,
                    ),
                forall|c: int|
                    0 <= c < cells@.len() ==> !cell_aborts(
                        op,
                        *config,
                        contact_types@[c % contact_types@.len() as int]@,
                        #[trigger] scripts@[c]@,
                    ),
            decreases k - ti,
        {
            let c = cells.len();
            proof {
                assert((a as int) * (k as int) + ti < (n_acc as int) * (k as int))
                    by (nonlinear_arith)
                    requires
                        0 <= a < n_acc,
                        0 <= ti < k,
                ;
                lemma_fundamental_div_mod_converse(c as int, k as int, a as int, ti as int);
            }
            let (report, abort) = run_cell(op, config, &accounts[a], &contact_types[ti], &scripts[c]);
            let ghost old_cells = cells@;
            let ghost old_errors = errors@;
            match &report.error {
                Option::None => {
                    success_count = success_count + 1;
                },
                Option::Some(e) => {
                    errors.push(e.duplicate());
                },
            }
            cells.push(report);
            proof {
                assert(cells@.drop_last() =~= old_cells);
                if cells@.last().error is Some {
                    assert(errors@ =~= errors_of_cells(cells@));
                } else {
                    assert(errors@ =~= errors_of_cells(cells@));
                }
            }
            if abort {
                return BatchReport {
                    outcome: OperationOutcome::Failure(
                        AppError::Account(AccountError::TooManyRequests),
                    ),
                    cells,
                    success_count,
                };
            }
            ti = ti + 1;
        }
        proof {
            assert((a as int + 1) * (k as int) == (a as int) * (k as int) + k)
                by (nonlinear_arith);
        }
        a = a + 1;
    }
    let outcome = finish_outcome(success_count, errors);
    BatchReport { outcome, cells, success_count }
}

} // verus!
