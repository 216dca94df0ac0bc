//! Contact types and records.

use vstd::prelude::*;

use crate::errors::AppError;
use crate::text::{str_eq, to_ascii_upper, to_upper_seq};

verus! {

/// The closed set of alternate contact kinds a cell can address.
#[derive(PartialEq, Eq, Structural, Clone, Copy, Debug)]
pub enum ContactType {
    Billing,
    Operations,
    Security,
}

/// An alternate contact record: the value read from or written to a cell.
/// All fields are plain strings with no cross-field invariants.
#[derive(Debug)]
pub struct ContactRecord {
    pub email_address: String,
    pub name: String,
    pub phone_number: String,
    pub title: String,
}

impl ContactRecord {
    /// A field-by-field copy, equal to the original.
    pub fn duplicate(&self) -> (r: Self)
        ensures
            r == *self,
    {
        ContactRecord {
            email_address: self.email_address.clone(),
            name: self.name.clone(),
            phone_number: self.phone_number.clone(),
            title: self.title.clone(),
        }
    }
}

/// Parses a contact type from free text, case-insensitively.  Text that
/// names none of the three kinds is a terminal input error (never
/// retried) carrying the uppercased text.
pub fn parse_contact_type(name: &str) -> (r: Result<ContactType, AppError>)
    ensures
        r == Ok::<ContactType, AppError>(ContactType::Billing) <==> to_upper_seq(name@)
            == "BILLING"@,
        r == Ok::<ContactType, AppError>(ContactType::Operations) <==> to_upper_seq(name@)
            == "OPERATIONS"@,
        r == Ok::<ContactType, AppError>(ContactType::Security) <==> to_upper_seq(name@)
            == "SECURITY"@,
        r matches Err(e) ==> (e matches AppError::UnknownContactType(s) && s@ == to_upper_seq(
            name@,
        )),
        (r is Ok) == valid_contact_type(name@),
{
    proof {
        reveal_strlit("BILLING");
        reveal_strlit("OPERATIONS");
        reveal_strlit("SECURITY");
        assert("BILLING"@.len() == 7 && "OPERATIONS"@.len() == 10 && "SECURITY"@.len() == 8);
    }
    let upper = to_ascii_upper(name);
    if str_eq(upper.as_str(), "BILLING") {
        Ok(ContactType::Billing)
    } else if str_eq(upper.as_str(), "OPERATIONS") {
        Ok(ContactType::Operations)
    } else if str_eq(upper.as_str(), "SECURITY") {
        Ok(ContactType::Security)
    } else {
        Err(AppError::UnknownContactType(upper))
    }
}

/// The free text names one of the three contact kinds, up to ASCII case.
pub open spec fn valid_contact_type(name: Seq<char>) -> bool {
    to_upper_seq(name) == "BILLING"@ || to_upper_seq(name) == "OPERATIONS"@ || to_upper_seq(name)
        == "SECURITY"@
}

/// An update's email input must contain an at sign.
pub fn valid_email_input(s: &str) -> (r: bool)
    ensures
        r == exists|i: int| 0 <= i < s@.len() && s@[i] == '@',
{
    let n = s.unicode_len();
    let mut i: usize = 0;
    while i < n
        invariant
            n == s@.len(),
            i <= n,
            forall|j: int| 0 <= j < i ==> s@[j] != '@',
        decreases n - i,
    {
        if s.get_char(i) == '@' {
            return true;
        }
        i = i + 1;
    }
    false
}

/// The number of ASCII digits in the sequence.
pub open spec fn digit_count(s: Seq<char>) -> int
    decreases s.len(),
{
    if s.len() == 0 {
        0
    } else {
        digit_count(s.drop_last()) + if crate::validate::is_digit_char(s.last()) {
            1int
        } else {
            0int
        }
    }
}

/// An update's phone input must contain at least 8 digits.
pub fn valid_phone_input(s: &str) -> (r: bool)
    ensures
        r == (digit_count(s@) >= 8),
{
    let n = s.unicode_len();
    let mut count: usize = 0;
    let mut i: usize = 0;
    while i < n
        invariant
            n == s@.len(),
            i <= n,
            count <= i,
            count == digit_count(s@.subrange(0, i as int)),
        decreases n - i,
    {
        let c = s.get_char(i);
        let v = c as u32;
        proof {
            assert(s@.subrange(0, i + 1).drop_last() =~= s@.subrange(0, i as int));
        }
        if 48 <= v && v <= 57 {
            count = count + 1;
        }
        i = i + 1;
    }
    proof {
        assert(s@.subrange(0, n as int) =~= s@);
    }
    count >= 8
}

} // verus!
