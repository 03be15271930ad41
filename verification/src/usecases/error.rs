//! Application errors: a domain error, or `Unauthorized` (about the session,
//! not a business rule).

use crate::error::{domain_error_of, domain_message, DomainError, RepoError};
use crate::text::owned;
use vstd::prelude::*;

verus! {

#[derive(Debug)]
pub enum AppError {
    /// No valid session, or not signed in.
    Unauthorized,
    /// Any domain-level error (forbidden, not found, conflict, rule violation).
    Domain(DomainError),
}

impl AppError {
    /// The inner domain error, if any.
    pub fn as_domain(&self) -> (r: Option<&DomainError>)
        ensures
            match *self {
                AppError::Domain(d) => r == Some(&d),
                AppError::Unauthorized => r is None,
            },
    {
        match self {
            AppError::Domain(d) => Some(d),
            AppError::Unauthorized => None,
        }
    }

    /// The human-readable message: `unauthorized`, or the domain error's.
    pub fn message(&self) -> (r: String)
        ensures
            r@ == match *self {
                AppError::Unauthorized => "unauthorized"@,
                AppError::Domain(d) => domain_message(d),
            },
    {
        match self {
            AppError::Unauthorized => owned("unauthorized"),
            AppError::Domain(d) => d.message(),
        }
    }
}

impl From<DomainError> for AppError {
    fn from(e: DomainError) -> (r: Self)
        ensures
            r == AppError::Domain(e),
    {
        AppError::Domain(e)
    }
}

impl vstd::std_specs::convert::FromSpecImpl<DomainError> for AppError {
    open spec fn obeys_from_spec() -> bool {
        true
    }

    open spec fn from_spec(v: DomainError) -> AppError {
        AppError::Domain(v)
    }
}

impl From<RepoError> for AppError {
    fn from(e: RepoError) -> (r: Self)
        ensures
            r == AppError::Domain(domain_error_of(e)),
    {
        AppError::Domain(DomainError::from(e))
    }
}

impl vstd::std_specs::convert::FromSpecImpl<RepoError> for AppError {
    open spec fn obeys_from_spec() -> bool {
        true
    }

    open spec fn from_spec(v: RepoError) -> AppError {
        AppError::Domain(domain_error_of(v))
    }
}

/// The value inside `found`, or `missing` as the error.
pub fn found_or<T>(found: Option<T>, missing: DomainError) -> (r: Result<T, AppError>)
    ensures
        match found {
            Some(v) => r == Ok::<T, AppError>(v),
            None => r == Err::<T, AppError>(AppError::Domain(missing)),
        },
{
    match found {
        Some(v) => Ok(v),
        None => Err(AppError::Domain(missing)),
    }
}


} // verus!
