//! The library's error taxonomy.
//!
//! Input errors (validation, unknown contact type) are fatal and reported
//! before any remote call; remote errors carry enough context (account,
//! contact type, underlying message) to report without re-querying.  Each
//! error renders itself as a human-readable message through `message`.

use vstd::prelude::*;
use vstd::string::StringExecFns;

verus! {

/// Errors from the directory service (listing the organization roster).
#[derive(Debug)]
pub enum OrganizationsError {
    /// Listing accounts failed for a reason other than the two below.
    ListAccounts { message: String },
    /// The caller lacks permission to list accounts.
    AccessDenied,
    /// The directory service is unavailable even after retries.
    ServiceUnavailable,
}

/// Errors from the identity service (resolving the caller's own account).
#[derive(Debug)]
pub enum StsError {
    /// The identity lookup failed.
    GetCallerIdentity { message: String },
    /// The lookup succeeded but carried no account id.
    NoAccountId,
}

/// Errors from the resource service, one cell at a time.
#[derive(Debug)]
pub enum AccountError {
    /// Reading a cell failed.
    GetAlternateContact { account_id: String, contact_type: String, message: String },
    /// Writing a cell failed.
    PutAlternateContact { account_id: String, contact_type: String, message: String },
    /// Deleting a cell failed.
    DeleteAlternateContact { account_id: String, contact_type: String, message: String },
    /// The cell holds no record where one was required.
    ResourceNotFound { account_id: String, contact_type: String },
    /// The caller may not touch this account.
    AccessDenied { account_id: String },
    /// Rate limiting persisted past the retry budget.
    TooManyRequests,
}

/// Errors from the object store (the export path).
#[derive(Debug)]
pub enum S3Error {
    /// The upload failed for a reason other than the ones below.
    PutObject { bucket: String, key: String, message: String },
    /// The bucket could not be found.
    BucketNotFound { bucket: String },
    /// The caller may not write to the bucket.
    AccessDenied { bucket: String },
    /// The bucket does not exist.
    NoSuchBucket { bucket: String },
}

/// Input validation errors; always fatal, raised before any remote call.
#[derive(Debug)]
pub enum ValidationError {
    /// The id is not exactly 12 ASCII digits.
    InvalidAccountId { account_id: String },
    /// The id is well-formed but absent from the organization roster.
    AccountNotInOrganization { account_id: String },
    /// The selector sequence is empty.
    NoAccountsProvided,
}

/// The top-level error type every operation reports through.
#[derive(Debug)]
pub enum AppError {
    Organizations(OrganizationsError),
    Sts(StsError),
    Account(AccountError),
    S3(S3Error),
    Validation(ValidationError),
    UserInput(String),
    UnknownContactType(String),
}

impl OrganizationsError {
    /// A field-by-field copy, equal to the original.
    pub fn duplicate(&self) -> (r: Self)
        ensures
            r == *self,
    {
        match self {
            OrganizationsError::ListAccounts { message } => OrganizationsError::ListAccounts {
                message: message.clone(),
            },
            OrganizationsError::AccessDenied => OrganizationsError::AccessDenied,
            OrganizationsError::ServiceUnavailable => OrganizationsError::ServiceUnavailable,
        }
    }

    /// The message this error renders as.
    pub open spec fn message_spec(&self) -> Seq<char> {
        match self {
            OrganizationsError::ListAccounts { message } => "Failed to list accounts: "@
                + message@,
            OrganizationsError::AccessDenied => {
                "Access denied to Organizations API. Ensure you have the required permissions."@
            },
            OrganizationsError::ServiceUnavailable => {
                "Organizations service unavailable. Please retry later."@
            },
        }
    }

    /// Renders the error as text.
    pub fn message(&self) -> (m: String)
        ensures
            m@ == self.message_spec(),
    {
        match self {
            OrganizationsError::ListAccounts { message } => {
                let mut m = String::from_str("Failed to list accounts: ");
                m.append(message.as_str());
                m
            },
            OrganizationsError::AccessDenied => {
                String::from_str(
                    "Access denied to Organizations API. Ensure you have the required permissions.",
                )
            },
            OrganizationsError::ServiceUnavailable => {
                String::from_str("Organizations service unavailable. Please retry later.")
            },
        }
    }
}

impl StsError {
    /// A field-by-field copy, equal to the original.
    pub fn duplicate(&self) -> (r: Self)
        ensures
            r == *self,
    {
        match self {
            StsError::GetCallerIdentity { message } => StsError::GetCallerIdentity {
                message: message.clone(),
            },
            StsError::NoAccountId => StsError::NoAccountId,
        }
    }

    /// The message this error renders as.
    pub open spec fn message_spec(&self) -> Seq<char> {
        match self {
            StsError::GetCallerIdentity { message } => "Failed to get caller identity: "@
                + message@,
            StsError::NoAccountId => "No account ID found in caller identity response"@,
        }
    }

    /// Renders the error as text.
    pub fn message(&self) -> (m: String)
        ensures
            m@ == self.message_spec(),
    {
        match self {
            StsError::GetCallerIdentity { message } => {
                let mut m = String::from_str("Failed to get caller identity: ");
                m.append(message.as_str());
                m
            },
            StsError::NoAccountId => {
                String::from_str("No account ID found in caller identity response")
            },
        }
    }
}

impl AccountError {
    /// A field-by-field copy, equal to the original.
    pub fn duplicate(&self) -> (r: Self)
        ensures
            r == *self,
    {
        match self {
            AccountError::GetAlternateContact { account_id, contact_type, message } => {
                AccountError::GetAlternateContact {
                    account_id: account_id.clone(),
                    contact_type: contact_type.clone(),
                    message: message.clone(),
                }
            },
            AccountError::PutAlternateContact { account_id, contact_type, message } => {
                AccountError::PutAlternateContact {
                    account_id: account_id.clone(),
                    contact_type: contact_type.clone(),
                    message: message.clone(),
                }
            },
            AccountError::DeleteAlternateContact { account_id, contact_type, message } => {
                AccountError::DeleteAlternateContact {
                    account_id: account_id.clone(),
                    contact_type: contact_type.clone(),
                    message: message.clone(),
                }
            },
            AccountError::ResourceNotFound { account_id, contact_type } => {
                AccountError::ResourceNotFound {
                    account_id: account_id.clone(),
                    contact_type: contact_type.clone(),
                }
            },
            AccountError::AccessDenied { account_id } => AccountError::AccessDenied {
                account_id: account_id.clone(),
            },
            AccountError::TooManyRequests => AccountError::TooManyRequests,
        }
    }

    /// The message this error renders as.
    pub open spec fn message_spec(&self) -> Seq<char> {
        match self {
            AccountError::GetAlternateContact { account_id, contact_type, message } => {
                "Failed to get alternate contact for account "@ + account_id@ + ", type "@
                    + contact_type@ + ": "@ + message@
            },
            AccountError::PutAlternateContact { account_id, contact_type, message } => {
                "Failed to update alternate contact for account "@ + account_id@ + ", type "@
                    + contact_type@ + ": "@ + message@
            },
            AccountError::DeleteAlternateContact { account_id, contact_type, message } => {
                "Failed to delete alternate contact for account "@ + account_id@ + ", type "@
                    + contact_type@ + ": "@ + message@
            },
            AccountError::ResourceNotFound { account_id, contact_type } => {
                "Alternate contact not found for account "@ + account_id@ + ", type "@
                    + contact_type@
            },
            AccountError::AccessDenied { account_id } => {
                "Access denied to account "@ + account_id@
                    + ". Check trusted access and permissions."@
            },
            AccountError::TooManyRequests => "Too many requests. Please slow down and retry."@,
        }
    }

    /// Renders the error as text.
    pub fn message(&self) -> (m: String)
        ensures
            m@ == self.message_spec(),
    {
        match self {
            AccountError::GetAlternateContact { account_id, contact_type, message } => {
                let mut m = String::from_str("Failed to get alternate contact for account ");
                m.append(account_id.as_str());
                m.append(", type ");
                m.append(contact_type.as_str());
                m.append(": ");
                m.append(message.as_str());
                m
            },
            AccountError::PutAlternateContact { account_id, contact_type, message } => {
                let mut m = String::from_str("Failed to update alternate contact for account ");
                m.append(account_id.as_str());
                m.append(", type ");
                m.append(contact_type.as_str());
                m.append(": ");
                m.append(message.as_str());
                m
            },
            AccountError::DeleteAlternateContact { account_id, contact_type, message } => {
                let mut m = String::from_str("Failed to delete alternate contact for account ");
                m.append(account_id.as_str());
                m.append(", type ");
                m.append(contact_type.as_str());
                m.append(": ");
                m.append(message.as_str());
                m
            },
            AccountError::ResourceNotFound { account_id, contact_type } => {
                let mut m = String::from_str("Alternate contact not found for account ");
                m.append(account_id.as_str());
                m.append(", type ");
                m.append(contact_type.as_str());
                m
            },
            AccountError::AccessDenied { account_id } => {
                let mut m = String::from_str("Access denied to account ");
                m.append(account_id.as_str());
                m.append(". Check trusted access and permissions.");
                m
            },
            AccountError::TooManyRequests => {
                String::from_str("Too many requests. Please slow down and retry.")
            },
        }
    }
}

impl S3Error {
    /// A field-by-field copy, equal to the original.
    pub fn duplicate(&self) -> (r: Self)
        ensures
            r == *self,
    {
        match self {
            S3Error::PutObject { bucket, key, message } => S3Error::PutObject {
                bucket: bucket.clone(),
                key: key.clone(),
                message: message.clone(),
            },
            S3Error::BucketNotFound { bucket } => S3Error::BucketNotFound {
                bucket: bucket.clone(),
            },
            S3Error::AccessDenied { bucket } => S3Error::AccessDenied { bucket: bucket.clone() },
            S3Error::NoSuchBucket { bucket } => S3Error::NoSuchBucket { bucket: bucket.clone() },
        }
    }

    /// The message this error renders as.
    pub open spec fn message_spec(&self) -> Seq<char> {
        match self {
            S3Error::PutObject { bucket, key, message } => {
                "Failed to upload to S3 bucket '"@ + bucket@ + "', key '"@ + key@ + "': "@
                    + message@
            },
            S3Error::BucketNotFound { bucket } => "S3 bucket '"@ + bucket@ + "' not found"@,
            S3Error::AccessDenied { bucket } => "Access denied to S3 bucket '"@ + bucket@ + "'"@,
            S3Error::NoSuchBucket { bucket } => "S3 bucket '"@ + bucket@ + "' does not exist"@,
        }
    }

    /// Renders the error as text.
    pub fn message(&self) -> (m: String)
        ensures
            m@ == self.message_spec(),
    {
        match self {
            S3Error::PutObject { bucket, key, message } => {
                let mut m = String::from_str("Failed to upload to S3 bucket '");
                m.append(bucket.as_str());
                m.append("', key '");
                m.append(key.as_str());
                m.append("': ");
                m.append(message.as_str());
                m
            },
            S3Error::BucketNotFound { bucket } => {
                let mut m = String::from_str("S3 bucket '");
                m.append(bucket.as_str());
                m.append("' not found");
                m
            },
            S3Error::AccessDenied { bucket } => {
                let mut m = String::from_str("Access denied to S3 bucket '");
                m.append(bucket.as_str());
                m.append("'");
                m
            },
            S3Error::NoSuchBucket { bucket } => {
                let mut m = String::from_str("S3 bucket '");
                m.append(bucket.as_str());
                m.append("' does not exist");
                m
            },
        }
    }
}

impl ValidationError {
    /// A field-by-field copy, equal to the original.
    pub fn duplicate(&self) -> (r: Self)
        ensures
            r == *self,
    {
        match self {
            ValidationError::InvalidAccountId { account_id } => ValidationError::InvalidAccountId {
                account_id: account_id.clone(),
            },
            ValidationError::AccountNotInOrganization { account_id } => {
                ValidationError::AccountNotInOrganization { account_id: account_id.clone() }
            },
            ValidationError::NoAccountsProvided => ValidationError::NoAccountsProvided,
        }
    }

    /// The message this error renders as.
    pub open spec fn message_spec(&self) -> Seq<char> {
        match self {
            ValidationError::InvalidAccountId { account_id } => {
                "Invalid AWS Account ID '"@ + account_id@ + "': must be exactly 12 digits"@
            },
            ValidationError::AccountNotInOrganization { account_id } => {
                "Account ID '"@ + account_id@ + "' does not belong to your AWS Organization"@
            },
            ValidationError::NoAccountsProvided => "No accounts provided"@,
        }
    }

    /// Renders the error as text.
    pub fn message(&self) -> (m: String)
        ensures
            m@ == self.message_spec(),
    {
        match self {
            ValidationError::InvalidAccountId { account_id } => {
                let mut m = String::from_str("Invalid AWS Account ID '");
                m.append(account_id.as_str());
                m.append("': must be exactly 12 digits");
                m
            },
            ValidationError::AccountNotInOrganization { account_id } => {
                let mut m = String::from_str("Account ID '");
                m.append(account_id.as_str());
                m.append("' does not belong to your AWS Organization");
                m
            },
            ValidationError::NoAccountsProvided => String::from_str("No accounts provided"),
        }
    }
}

impl AppError {
    /// A field-by-field copy, equal to the original.
    pub fn duplicate(&self) -> (r: Self)
        ensures
            r == *self,
    {
        match self {
            AppError::Organizations(e) => AppError::Organizations(e.duplicate()),
            AppError::Sts(e) => AppError::Sts(e.duplicate()),
            AppError::Account(e) => AppError::Account(e.duplicate()),
            AppError::S3(e) => AppError::S3(e.duplicate()),
            AppError::Validation(e) => AppError::Validation(e.duplicate()),
            AppError::UserInput(s) => AppError::UserInput(s.clone()),
            AppError::UnknownContactType(s) => AppError::UnknownContactType(s.clone()),
        }
    }

    /// The message this error renders as: a category prefix, then the
    /// underlying error's own message.
    pub open spec fn message_spec(&self) -> Seq<char> {
        match self {
            AppError::Organizations(e) => "AWS Organizations error: "@ + e.message_spec(),
            AppError::Sts(e) => "AWS STS error: "@ + e.message_spec(),
            AppError::Account(e) => "AWS Account error: "@ + e.message_spec(),
            AppError::S3(e) => "AWS S3 error: "@ + e.message_spec(),
            AppError::Validation(e) => "Validation error: "@ + e.message_spec(),
            AppError::UserInput(s) => "User input error: "@ + s@,
            AppError::UnknownContactType(s) => "Unknown alternate contact type: "@ + s@,
        }
    }

    /// Renders the error as text.
    pub fn message(&self) -> (m: String)
        ensures
            m@ == self.message_spec(),
    {
        match self {
            AppError::Organizations(e) => {
                let mut m = String::from_str("AWS Organizations error: ");
                let inner = e.message();
                m.append(inner.as_str());
                m
            },
            AppError::Sts(e) => {
                let mut m = String::from_str("AWS STS error: ");
                let inner = e.message();
                m.append(inner.as_str());
                m
            },
            AppError::Account(e) => {
                let mut m = String::from_str("AWS Account error: ");
                let inner = e.message();
                m.append(inner.as_str());
                m
            },
            AppError::S3(e) => {
                let mut m = String::from_str("AWS S3 error: ");
                let inner = e.message();
                m.append(inner.as_str());
                m
            },
            AppError::Validation(e) => {
                let mut m = String::from_str("Validation error: ");
                let inner = e.message();
                m.append(inner.as_str());
                m
            },
            AppError::UserInput(s) => {
                let mut m = String::from_str("User input error: ");
                m.append(s.as_str());
                m
            },
            AppError::UnknownContactType(s) => {
                let mut m = String::from_str("Unknown alternate contact type: ");
                m.append(s.as_str());
                m
            },
        }
    }
}

} // verus!
