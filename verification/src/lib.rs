//! Batch management of account alternate contacts across an organization.
//!
//! The core of the library is an orchestration layer: selector validation,
//! classification of remote-call failures into a small taxonomy, bounded
//! retry with exponential backoff, and aggregation of per-cell results of a
//! batch (one cell per account and contact type) into a single outcome.
//! Remote calls themselves are performed by collaborators outside the
//! library; the library works on the plain values they produce.

pub mod batch;
pub mod classify;
pub mod contact;
pub mod errors;
pub mod export;
pub mod findings;
pub mod outcome;
pub mod retry;
pub mod roster;
pub mod selection;
pub mod slack;
pub mod subscriptions;
pub mod templates;
pub mod text;
pub mod validate;
