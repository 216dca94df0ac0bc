//! Decisions around the organization roster and the caller's identity.
//!
//! The paged listing of accounts and the identity lookup are remote calls
//! a driver performs; the library maps their outcomes onto the error
//! taxonomy and extracts the plain values the core needs.

use vstd::prelude::*;

use crate::classify::{
    access_denied_text, error_is_access_denied, error_is_service_unavailable,
    service_unavailable_text,
};
use crate::errors::{AppError, OrganizationsError, StsError};

verus! {

/// Maps a failed roster listing onto its error: an access-denial
/// identifier wins, then a service outage; anything else keeps the text.
/// A roster failure is fatal: it is the batch's very first call.
pub fn classify_list_accounts_error(text: &str) -> (e: OrganizationsError)
    ensures
        access_denied_text(text@) ==> e is AccessDenied,
        !access_denied_text(text@) && service_unavailable_text(text@) ==> e is ServiceUnavailable,
        !access_denied_text(text@) && !service_unavailable_text(text@) ==> (e matches
            OrganizationsError::ListAccounts { message } && message@ == text@),
{
    if error_is_access_denied(text) {
        OrganizationsError::AccessDenied
    } else if error_is_service_unavailable(text) {
        OrganizationsError::ServiceUnavailable
    } else {
        OrganizationsError::ListAccounts { message: text.to_owned() }
    }
}

/// Extracts the caller's account id from an identity response: a response
/// without one is an error.
pub fn caller_account_id(account: Option<String>) -> (r: Result<String, AppError>)
    ensures
        account matches Some(a) ==> r == Ok::<String, AppError>(a),
        account is None ==> r == Err::<String, AppError>(AppError::Sts(StsError::NoAccountId)),
{
    match account {
        Some(a) => Ok(a),
        None => Err(AppError::Sts(StsError::NoAccountId)),
    }
}

} // verus!
