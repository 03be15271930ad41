//! Domain-level errors: business-rule violations and lookups.

use crate::text::{concat, decimal_text, int_text, owned};
use vstd::prelude::*;

verus! {

/// A single password-policy violation. Validation returns every violation at
/// once so each failing rule can be shown.
#[derive(Debug, Clone, Copy, PartialEq, Eq, Structural)]
pub enum PolicyViolation {
    TooShort { min: u8, actual: usize },
    MissingNumber,
    MissingSymbol,
}

/// The message of a policy violation.
pub open spec fn violation_message(v: PolicyViolation) -> Seq<char> {
    match v {
        PolicyViolation::TooShort { min, actual } => "must be at least "@ + decimal_text(min as int)
            + " characters (got "@ + decimal_text(actual as int) + ")"@,
        PolicyViolation::MissingNumber => "must contain a number"@,
        PolicyViolation::MissingSymbol => "must contain a symbol"@,
    }
}

impl PolicyViolation {
    /// The message shown for the violation.
    pub fn message(&self) -> (r: String)
        ensures
            r@ == violation_message(*self),
    {
        match self {
            PolicyViolation::TooShort { min, actual } => {
                let mut r = owned("must be at least ");
                let m = int_text(*min as i128);
                r.append(m.as_str());
                r.append(" characters (got ");
                let a = int_text(*actual as i128);
                r.append(a.as_str());
                r.append(")");
                r
            },
            PolicyViolation::MissingNumber => owned("must contain a number"),
            PolicyViolation::MissingSymbol => owned("must contain a symbol"),
        }
    }
}

/// Errors produced by domain rules and, through the ports, by repositories.
#[derive(Debug)]
pub enum DomainError {
    /// The actor tried to assign or reach a privilege above their own level.
    PrivilegeEscalation(String),
    /// The change would leave the organization without an administrator.
    LastAdminProtected(String),
    /// A matrix cell is locked by rule and cannot be edited.
    CellLocked(String),
    /// A password failed one or more policy rules.
    PasswordPolicy(Vec<PolicyViolation>),
    /// A required entity was not found.
    NotFound(String),
    /// The actor is not permitted to perform this action.
    Forbidden(String),
    /// A value or transition is invalid.
    Invalid(String),
    /// A uniqueness or state conflict, such as a duplicate email.
    Conflict(String),
    /// An underlying repository failure surfaced through a port.
    Repo(String),
}

/// The message of a domain error: its kind, then its detail.
pub open spec fn domain_message(e: DomainError) -> Seq<char> {
    match e {
        DomainError::PrivilegeEscalation(m) => "privilege escalation: "@ + m@,
        DomainError::LastAdminProtected(m) => "last-admin protection: "@ + m@,
        DomainError::CellLocked(m) => "permission cell is locked: "@ + m@,
        DomainError::PasswordPolicy(_) => "password policy not satisfied"@,
        DomainError::NotFound(m) => "not found: "@ + m@,
        DomainError::Forbidden(m) => "forbidden: "@ + m@,
        DomainError::Invalid(m) => "invalid: "@ + m@,
        DomainError::Conflict(m) => "conflict: "@ + m@,
        DomainError::Repo(m) => "repository error: "@ + m@,
    }
}

impl DomainError {
    /// The human-readable message: the kind of error, then its detail.
    pub fn message(&self) -> (r: String)
        ensures
            r@ == domain_message(*self),
    {
        match self {
            DomainError::PrivilegeEscalation(m) => concat("privilege escalation: ", m.as_str()),
            DomainError::LastAdminProtected(m) => concat("last-admin protection: ", m.as_str()),
            DomainError::CellLocked(m) => concat("permission cell is locked: ", m.as_str()),
            DomainError::PasswordPolicy(_) => owned("password policy not satisfied"),
            DomainError::NotFound(m) => concat("not found: ", m.as_str()),
            DomainError::Forbidden(m) => concat("forbidden: ", m.as_str()),
            DomainError::Invalid(m) => concat("invalid: ", m.as_str()),
            DomainError::Conflict(m) => concat("conflict: ", m.as_str()),
            DomainError::Repo(m) => concat("repository error: ", m.as_str()),
        }
    }
}

/// A failure surfaced by a repository implementation.
#[derive(Debug)]
pub enum RepoError {
    /// A unique constraint was violated (e.g. duplicate email or role key).
    UniqueViolation(String),
    /// Any other backend failure (connection, query, mapping).
    Other(String),
}

/// The message of a repository failure.
pub open spec fn repo_message(e: RepoError) -> Seq<char> {
    match e {
        RepoError::UniqueViolation(m) => "unique violation: "@ + m@,
        RepoError::Other(m) => "repository failure: "@ + m@,
    }
}

impl RepoError {
    /// The human-readable message: the kind of failure, then its detail.
    pub fn message(&self) -> (r: String)
        ensures
            r@ == repo_message(*self),
    {
        match self {
            RepoError::UniqueViolation(m) => concat("unique violation: ", m.as_str()),
            RepoError::Other(m) => concat("repository failure: ", m.as_str()),
        }
    }
}

/// The domain error a repository failure becomes: a unique violation is a
/// conflict, anything else a repository error, with the same message.
pub open spec fn domain_error_of(e: RepoError) -> DomainError {
    match e {
        RepoError::UniqueViolation(m) => DomainError::Conflict(m),
        RepoError::Other(m) => DomainError::Repo(m),
    }
}

impl From<RepoError> for DomainError {
    fn from(e: RepoError) -> (r: Self)
        ensures
            r == domain_error_of(e),
    {
        match e {
            RepoError::UniqueViolation(m) => DomainError::Conflict(m),
            RepoError::Other(m) => DomainError::Repo(m),
        }
    }
}

impl vstd::std_specs::convert::FromSpecImpl<RepoError> for DomainError {
    open spec fn obeys_from_spec() -> bool {
        true
    }

    open spec fn from_spec(v: RepoError) -> DomainError {
        domain_error_of(v)
    }
}

} // verus!
