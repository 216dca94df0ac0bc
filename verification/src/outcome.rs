//! The result algebra of a batch run.
//!
//! A batch ends in exactly one of four terminal states.  `Cancelled` is
//! reachable only from an explicit user-abort decision outside the core;
//! remote-call failures never produce it.

use vstd::prelude::*;
use vstd::string::StringExecFns;

use crate::errors::AppError;
use crate::text::{dec_digits, usize_to_string};

verus! {

/// The terminal state of one batch run, immutable after construction.
#[derive(Debug)]
pub enum OperationOutcome {
    /// Every cell succeeded.
    Success,
    /// At least one cell succeeded and at least one failed; the errors are
    /// kept in cell-visitation order.
    PartialSuccess { errors: Vec<AppError> },
    /// The batch failed as a whole: either every cell failed (the first
    /// error is kept) or rate limiting exhausted the retry budget.
    Failure(AppError),
    /// The user declined to proceed at a decision point.
    Cancelled,
}

impl OperationOutcome {
    /// The one-line summary this outcome renders as.
    pub open spec fn describe_spec(&self) -> Seq<char> {
        match self {
            OperationOutcome::Success => "Operation completed successfully"@,
            OperationOutcome::PartialSuccess { errors } => "Operation completed with "@
                + dec_digits(errors@.len() as int) + " errors"@,
            OperationOutcome::Failure(err) => "Operation failed: "@ + err.message_spec(),
            OperationOutcome::Cancelled => "Operation cancelled by user"@,
        }
    }

    /// Renders the outcome as a one-line summary.
    pub fn describe(&self) -> (m: String)
        ensures
            m@ == self.describe_spec(),
    {
        match self {
            OperationOutcome::Success => String::from_str("Operation completed successfully"),
            OperationOutcome::PartialSuccess { errors } => {
                let mut m = String::from_str("Operation completed with ");
                let count = usize_to_string(errors.len());
                m.append(count.as_str());
                m.append(" errors");
                m
            },
            OperationOutcome::Failure(err) => {
                let mut m = String::from_str("Operation failed: ");
                let inner = err.message();
                m.append(inner.as_str());
                m
            },
            OperationOutcome::Cancelled => String::from_str("Operation cancelled by user"),
        }
    }
}

/// Folds a batch's tally into its outcome: no errors is `Success`; errors
/// beside at least one success is `PartialSuccess` carrying all errors in
/// order; errors with zero successes is `Failure` carrying the first error.
pub fn finish_outcome(success_count: usize, errors: Vec<AppError>) -> (o: OperationOutcome)
    ensures
        errors@.len() == 0 ==> o is Success,
        errors@.len() > 0 && success_count > 0 ==> (o matches OperationOutcome::PartialSuccess {
            errors: es,
        } && es@ == errors@),
        errors@.len() > 0 && success_count == 0 ==> (o matches OperationOutcome::Failure(e) && e
            == errors@[0]),
{
    if errors.len() == 0 {
        OperationOutcome::Success
    } else if success_count > 0 {
        OperationOutcome::PartialSuccess { errors }
    } else {
        let mut errors = errors;
        let first = errors.remove(0);
        OperationOutcome::Failure(first)
    }
}

} // verus!
