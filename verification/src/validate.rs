//! Selector validation.
//!
//! Before any remote call, every selected account id must be exactly 12
//! ASCII digits and present in the organization roster.  Violations are
//! checked per element in order; the first violation found aborts
//! validation (fail-fast, no accumulation).

use vstd::prelude::*;

use crate::errors::{AppError, ValidationError};
use crate::text::str_eq;

verus! {

/// An ASCII decimal digit.
pub open spec fn is_digit_char(c: char) -> bool {
    48 <= c as u32 <= 57
}

/// A well-formed account id: exactly 12 ASCII digits.
pub open spec fn valid_account_id(s: Seq<char>) -> bool {
    s.len() == 12 && (forall|i: int| 0 <= i < s.len() ==> is_digit_char(s[i]))
}

/// The roster holds an entry with the given id.
pub open spec fn roster_has(roster: Seq<String>, id: Seq<char>) -> bool {
    exists|j: int| 0 <= j < roster.len() && roster[j]@ == id
}

/// The id passes both checks: well-formed and a member of the roster.
pub open spec fn account_ok(id: String, roster: Seq<String>) -> bool {
    valid_account_id(id@) && roster_has(roster, id@)
}

/// What the per-element scan from position `i` on ends with: the first
/// violation decides the result; a malformed id is reported before a
/// missing roster entry.
pub open spec fn validate_from(accounts: Seq<String>, roster: Seq<String>, i: int) -> Result<
    (),
    AppError,
>
    decreases accounts.len() - i,
{
    if i >= accounts.len() {
        Ok(())
    } else if !valid_account_id(accounts[i]@) {
        Err(AppError::Validation(ValidationError::InvalidAccountId { account_id: accounts[i] }))
    } else if !roster_has(roster, accounts[i]@) {
        Err(
            AppError::Validation(
                ValidationError::AccountNotInOrganization { account_id: accounts[i] },
            ),
        )
    } else {
        validate_from(accounts, roster, i + 1)
    }
}

/// What validation ends with: an empty selection is rejected outright,
/// otherwise the per-element scan decides.
pub open spec fn validate_spec(accounts: Seq<String>, roster: Seq<String>) -> Result<
    (),
    AppError,
> {
    if accounts.len() == 0 {
        Err(AppError::Validation(ValidationError::NoAccountsProvided))
    } else {
        validate_from(accounts, roster, 0)
    }
}

proof fn lemma_validate_from_ok(accounts: Seq<String>, roster: Seq<String>, i: int)
    requires
        0 <= i <= accounts.len(),
    ensures
        validate_from(accounts, roster, i) is Ok <==> (forall|j: int|
            i <= j < accounts.len() ==> account_ok(#[trigger] accounts[j], roster)),
    decreases accounts.len() - i,
{
    if i < accounts.len() {
        lemma_validate_from_ok(accounts, roster, i + 1);
    }
}

/// Decides whether an id is exactly 12 ASCII digits.
pub fn is_valid_account_id(id: &str) -> (r: bool)
    ensures
        r == valid_account_id(id@),
{
    let n = id.unicode_len();
    if n != 12 {
        return false;
    }
    let mut i: usize = 0;
    while i < n
        invariant
            n == id@.len() == 12,
            i <= n,
            forall|j: int| 0 <= j < i ==> is_digit_char(id@[j]),
        decreases n - i,
    {
        let c = id.get_char(i);
        let v = c as u32;
        if v < 48 || v > 57 {
            return false;
        }
        i = i + 1;
    }
    true
}

/// Decides roster membership of an id.
pub fn roster_contains(roster: &Vec<String>, id: &str) -> (r: bool)
    ensures
        r == roster_has(roster@, id@),
{
    let mut j: usize = 0;
    while j < roster.len()
        invariant
            j <= roster@.len(),
            forall|k: int| 0 <= k < j ==> roster@[k]@ != id@,
        decreases roster@.len() - j,
    {
        if str_eq(roster[j].as_str(), id) {
            return true;
        }
        j = j + 1;
    }
    false
}

/// Validates the selected account ids against the organization roster.
/// Fails with `NoAccountsProvided` on an empty selection, and otherwise
/// with `InvalidAccountId` or `AccountNotInOrganization` naming the first
/// offending id; succeeds exactly when the selection is non-empty and
/// every id is 12 digits and a roster member.  Pure: no side effects.
pub fn validate_accounts(accounts: &Vec<String>, org_accounts: &Vec<String>) -> (r: Result<
    (),
    AppError,
>)
    ensures
        r == validate_spec(accounts@, org_accounts@),
        r is Ok <==> (accounts@.len() > 0 && forall|i: int|
            0 <= i < accounts@.len() ==> account_ok(#[trigger] accounts@[i], org_accounts@)),
        accounts@.len() == 0 ==> r == Err::<(), AppError>(
            AppError::Validation(ValidationError::NoAccountsProvided),
        ),
{
    proof {
        lemma_validate_from_ok(accounts@, org_accounts@, 0);
    }
    if accounts.len() == 0 {
        return Err(AppError::Validation(ValidationError::NoAccountsProvided));
    }
    let mut i: usize = 0;
    while i < accounts.len()
        invariant
            i <= accounts@.len(),
            validate_from(accounts@, org_accounts@, 0) == validate_from(
                accounts@,
                org_accounts@,
                i as int,
            ),
        decreases accounts@.len() - i,
    {
        if !is_valid_account_id(accounts[i].as_str()) {
            return Err(
                AppError::Validation(
                    ValidationError::InvalidAccountId { account_id: accounts[i].clone() },
                ),
            );
        }
        if !roster_contains(org_accounts, accounts[i].as_str()) {
            return Err(
                AppError::Validation(
                    ValidationError::AccountNotInOrganization { account_id: accounts[i].clone() },
                ),
            );
        }
        i = i + 1;
    }
    proof {
        lemma_validate_from_ok(accounts@, org_accounts@, accounts@.len() as int);
    }
    Ok(())
}

/// Law: when every id before position `i` passes both checks and the id
/// at `i` is malformed, validation fails with `InvalidAccountId` naming
/// that id.
pub proof fn validate_flags_invalid_id(accounts: Seq<String>, roster: Seq<String>, i: int)
    requires
        0 <= i < accounts.len(),
        !valid_account_id(accounts[i]@),
        forall|j: int| 0 <= j < i ==> account_ok(#[trigger] accounts[j], roster),
    ensures
        validate_spec(accounts, roster) == Err::<(), AppError>(
            AppError::Validation(ValidationError::InvalidAccountId { account_id: accounts[i] }),
        ),
    decreases i,
{
    lemma_validate_from_first_violation(accounts, roster, 0, i);
}

/// Law: when every id before position `i` passes both checks and the id
/// at `i` is well-formed but absent from the roster, validation fails
/// with `AccountNotInOrganization` naming that id.
pub proof fn validate_flags_absent_id(accounts: Seq<String>, roster: Seq<String>, i: int)
    requires
        0 <= i < accounts.len(),
        valid_account_id(accounts[i]@),
        !roster_has(roster, accounts[i]@),
        forall|j: int| 0 <= j < i ==> account_ok(#[trigger] accounts[j], roster),
    ensures
        validate_spec(accounts, roster) == Err::<(), AppError>(
            AppError::Validation(
                ValidationError::AccountNotInOrganization { account_id: accounts[i] },
            ),
        ),
{
    lemma_validate_from_first_violation(accounts, roster, 0, i);
}

proof fn lemma_validate_from_first_violation(
    accounts: Seq<String>,
    roster: Seq<String>,
    k: int,
    i: int,
)
    requires
        0 <= k <= i < accounts.len(),
        forall|j: int| 0 <= j < i ==> account_ok(#[trigger] accounts[j], roster),
    ensures
        validate_from(accounts, roster, k) == validate_from(accounts, roster, i),
    decreases i - k,
{
    if k < i {
        lemma_validate_from_first_violation(accounts, roster, k + 1, i);
    }
}

} // verus!
