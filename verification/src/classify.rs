//! Classification of remote-call failures.
//!
//! A failed remote call reaches the library as a normalized textual
//! rendering of the transport error.  Classification maps that open-ended
//! text onto a small closed taxonomy by searching for the remote API's
//! known error identifiers, so that the retry and batch layers never
//! depend on concrete transport error types.

use vstd::prelude::*;

verus! {

/// True when `p` occurs in `t` starting at position `i`.
pub open spec fn matches_at(t: Seq<char>, p: Seq<char>, i: int) -> bool {
    forall|j: int| 0 <= j < p.len() ==> t[i + j] == p[j]
}

/// True when `p` occurs somewhere in `t` as a contiguous run.
pub open spec fn contains_seq(t: Seq<char>, p: Seq<char>) -> bool {
    exists|i: int| 0 <= i && i + p.len() <= t.len() && matches_at(t, p, i)
}

/// Substring search: decides `contains_seq` for two string slices.
pub fn contains_substr(text: &str, pat: &str) -> (r: bool)
    ensures
        r == contains_seq(text@, pat@),
{
    let n = text.unicode_len();
    let m = pat.unicode_len();
    if m > n {
        return false;
    }
    let mut i: usize = 0;
    while i <= n - m
        invariant
            m <= n <= usize::MAX,
            n == text@.len(),
            m == pat@.len(),
            i <= n - m + 1,
            forall|k: int| 0 <= k < i ==> !matches_at(text@, pat@, k),
        decreases n - m + 1 - i,
    {
        let mut j: usize = 0;
        let mut hit = true;
        while j < m
            invariant
                m <= n == text@.len(),
                m == pat@.len(),
                i <= n - m,
                j <= m,
                hit <==> (forall|l: int| 0 <= l < j ==> text@[i + l] == pat@[l]),
            decreases m - j,
        {
            if text.get_char(i + j) != pat.get_char(j) {
                hit = false;
            }
            j = j + 1;
        }
        if hit {
            assert(matches_at(text@, pat@, i as int));
            return true;
        }
        i = i + 1;
    }
    false
}

/// The text carries one of the remote API's access-denial identifiers.
pub open spec fn access_denied_text(s: Seq<char>) -> bool {
    contains_seq(s, "AccessDenied"@) || contains_seq(s, "UnauthorizedAccess"@)
}

/// The text carries one of the remote API's rate-limit identifiers.
pub open spec fn throttling_text(s: Seq<char>) -> bool {
    contains_seq(s, "TooManyRequests"@) || contains_seq(s, "Throttling"@)
}

/// The text carries an identifier of a transient service outage, including
/// a transport dispatch failure.
pub open spec fn service_unavailable_text(s: Seq<char>) -> bool {
    ||| contains_seq(s, "ServiceUnavailable"@)
    ||| contains_seq(s, "InternalError"@)
    ||| contains_seq(s, "TimeoutError"@)
    ||| contains_seq(s, "DispatchFailure"@)
}

/// The text carries one of the remote API's missing-resource identifiers.
pub open spec fn not_found_text(s: Seq<char>) -> bool {
    contains_seq(s, "ResourceNotFoundException"@) || contains_seq(s, "ResourceNotFound"@)
}

/// Decides `access_denied_text`.
pub fn error_is_access_denied(err: &str) -> (r: bool)
    ensures
        r == access_denied_text(err@),
{
    contains_substr(err, "AccessDenied") || contains_substr(err, "UnauthorizedAccess")
}

/// Decides `throttling_text`.
pub fn error_is_throttling(err: &str) -> (r: bool)
    ensures
        r == throttling_text(err@),
{
    contains_substr(err, "TooManyRequests") || contains_substr(err, "Throttling")
}

/// Decides `service_unavailable_text`.
pub fn error_is_service_unavailable(err: &str) -> (r: bool)
    ensures
        r == service_unavailable_text(err@),
{
    contains_substr(err, "ServiceUnavailable") || contains_substr(err, "InternalError")
        || contains_substr(err, "TimeoutError") || contains_substr(err, "DispatchFailure")
}

/// Decides `not_found_text`.
pub fn error_is_not_found(err: &str) -> (r: bool)
    ensures
        r == not_found_text(err@),
{
    contains_substr(err, "ResourceNotFoundException") || contains_substr(err, "ResourceNotFound")
}

/// The semantic kind of a remote-call failure.  Produced by [`classify`],
/// consumed by the retry and batch layers; `Other` keeps the original text.
pub enum ErrorKind {
    AccessDenied,
    Throttled,
    ServiceUnavailable,
    NotFound,
    Other(String),
}

/// Classification priority: an access-denial identifier wins over all
/// others, then rate limiting, then service outage, then missing resource.
pub open spec fn classified_access_denied(s: Seq<char>) -> bool {
    access_denied_text(s)
}

/// See `classified_access_denied` for the priority order.
pub open spec fn classified_throttled(s: Seq<char>) -> bool {
    !access_denied_text(s) && throttling_text(s)
}

/// See `classified_access_denied` for the priority order.
pub open spec fn classified_service_unavailable(s: Seq<char>) -> bool {
    !access_denied_text(s) && !throttling_text(s) && service_unavailable_text(s)
}

/// See `classified_access_denied` for the priority order.
pub open spec fn classified_not_found(s: Seq<char>) -> bool {
    !access_denied_text(s) && !throttling_text(s) && !service_unavailable_text(s)
        && not_found_text(s)
}

/// The text matches none of the known identifiers.
pub open spec fn classified_other(s: Seq<char>) -> bool {
    !access_denied_text(s) && !throttling_text(s) && !service_unavailable_text(s)
        && !not_found_text(s)
}

/// A kind on which retrying may help: rate limiting or a service outage.
pub open spec fn transient_text(s: Seq<char>) -> bool {
    classified_throttled(s) || classified_service_unavailable(s)
}

/// Maps a failure's textual rendering onto its semantic kind.
/// Always returns a value; unrecognized text is kept verbatim in `Other`.
pub fn classify(err: &str) -> (k: ErrorKind)
    ensures
        k is AccessDenied <==> classified_access_denied(err@),
        k is Throttled <==> classified_throttled(err@),
        k is ServiceUnavailable <==> classified_service_unavailable(err@),
        k is NotFound <==> classified_not_found(err@),
        k is Other <==> classified_other(err@),
        k matches ErrorKind::Other(detail) ==> detail@ == err@,
{
    if error_is_access_denied(err) {
        ErrorKind::AccessDenied
    } else if error_is_throttling(err) {
        ErrorKind::Throttled
    } else if error_is_service_unavailable(err) {
        ErrorKind::ServiceUnavailable
    } else if error_is_not_found(err) {
        ErrorKind::NotFound
    } else {
        ErrorKind::Other(err.to_owned())
    }
}

/// Decides whether a classified failure is transient: a retry may help
/// only after rate limiting or a service outage.
pub fn is_transient(k: &ErrorKind) -> (r: bool)
    ensures
        r == (k is Throttled || k is ServiceUnavailable),
{
    match k {
        ErrorKind::Throttled => true,
        ErrorKind::ServiceUnavailable => true,
        _ => false,
    }
}

} // verus!
