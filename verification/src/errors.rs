//! The failures a resolver reports to its caller.

use vstd::prelude::*;
use crate::store::StoreFault;

verus! {

/// A failure as the caller of the interface sees it: a category and a short
/// message, never the store's own words.
#[derive(Clone, Copy, Debug, PartialEq, Eq)]
pub enum ResolverError {
    /// A nested input that the operation needs was left out.
    MissingField { field: &'static str },
    /// Name and password do not belong together, or the stored credential
    /// cannot be read. The two are deliberately indistinguishable.
    InvalidCredentials,
    /// No record has the requested id.
    NotFound,
    /// The store refused the row: a dangling reference or a repeated unique
    /// value.
    ConstraintViolation,
    /// No connection became free within the pool's bounded wait.
    PoolExhausted,
    /// The store failed in a way the caller can do nothing about.
    Internal,
}

/// The resolver-level failure that stands for a store-level one.
pub open spec fn fault_error(fault: StoreFault) -> ResolverError {
    match fault {
        StoreFault::NotFound => ResolverError::NotFound,
        StoreFault::ForeignKeyViolation => ResolverError::ConstraintViolation,
        StoreFault::UniqueViolation => ResolverError::ConstraintViolation,
        StoreFault::Other => ResolverError::Internal,
    }
}

/// What a resolver answers once the store has run its one operation.
pub open spec fn settled<T>(outcome: Result<T, StoreFault>) -> Result<T, ResolverError> {
    match outcome {
        Ok(row) => Ok(row),
        Err(fault) => Err(fault_error(fault)),
    }
}

impl ResolverError {
    /// The category of the failure in the form that programs read.
    pub open spec fn category_text(self) -> Seq<char> {
        match self {
            ResolverError::MissingField { .. } => "missing_field"@,
            ResolverError::InvalidCredentials => "invalid_credentials"@,
            ResolverError::NotFound => "not_found"@,
            ResolverError::ConstraintViolation => "constraint_violation"@,
            ResolverError::PoolExhausted => "pool_exhausted"@,
            ResolverError::Internal => "internal"@,
        }
    }

    /// The short message that goes with each category. It says nothing of
    /// the store, and for a credential nothing of what was wrong with it.
    pub open spec fn message_text(self) -> Seq<char> {
        match self {
            ResolverError::MissingField { .. } => "A required field is missing"@,
            ResolverError::InvalidCredentials => "Could not match the name/password combination"@,
            ResolverError::NotFound => "The record does not exist"@,
            ResolverError::ConstraintViolation => "The record conflicts with what is stored"@,
            ResolverError::PoolExhausted => "No database connection is available"@,
            ResolverError::Internal => "The operation could not be carried out"@,
        }
    }

    /// The machine-readable category of the failure.
    pub fn category(&self) -> (text: &'static str)
        ensures
            text@ == self.category_text(),
    {
        match self {
            ResolverError::MissingField { .. } => "missing_field",
            ResolverError::InvalidCredentials => "invalid_credentials",
            ResolverError::NotFound => "not_found",
            ResolverError::ConstraintViolation => "constraint_violation",
            ResolverError::PoolExhausted => "pool_exhausted",
            ResolverError::Internal => "internal",
        }
    }

    /// The short human message of the failure.
    pub fn message(&self) -> (text: &'static str)
        ensures
            text@ == self.message_text(),
    {
        match self {
            ResolverError::MissingField { .. } => "A required field is missing",
            ResolverError::InvalidCredentials => "Could not match the name/password combination",
            ResolverError::NotFound => "The record does not exist",
            ResolverError::ConstraintViolation => "The record conflicts with what is stored",
            ResolverError::PoolExhausted => "No database connection is available",
            ResolverError::Internal => "The operation could not be carried out",
        }
    }

    /// The input that was left out, for a failure that is about one.
    pub fn missing_field(&self) -> (field: Option<&'static str>)
        ensures
            field == match *self {
                ResolverError::MissingField { field } => Some(field),
                _ => None,
            },
    {
        match self {
            ResolverError::MissingField { field } => Some(*field),
            _ => None,
        }
    }

    /// The resolver-level failure for a store-level one, every store detail
    /// dropped.
    pub fn from_fault(fault: StoreFault) -> (out: ResolverError)
        ensures
            out == fault_error(fault),
    {
        match fault {
            StoreFault::NotFound => ResolverError::NotFound,
            StoreFault::ForeignKeyViolation => ResolverError::ConstraintViolation,
            StoreFault::UniqueViolation => ResolverError::ConstraintViolation,
            StoreFault::Other => ResolverError::Internal,
        }
    }
}

/// Hands a stored row through unchanged and turns a store failure into the
/// resolver-level failure that stands for it.
pub fn settle<T>(outcome: Result<T, StoreFault>) -> (out: Result<T, ResolverError>)
    ensures
        out == settled(outcome),
{
    match outcome {
        Ok(row) => Ok(row),
        Err(fault) => Err(ResolverError::from_fault(fault)),
    }
}

} // verus!
