//! Ports: the seams between the domain and the outside world. The capability
//! traits the use cases need (`PasswordHasher`, `TokenGenerator`) and the
//! plain values that cross them.

use crate::entities::organization::PasswordPolicy;
use crate::entities::permission::PermissionCategory;
use crate::entities::user::UserStatus;
use crate::error::DomainError;
use crate::ids::{RoleId, SessionId};
use crate::services::password_policy::{satisfies, validate_password, violations_of};
use vstd::prelude::*;

verus! {

/// A freshly minted API token: the full secret (shown once) and its public
/// prefix.
#[derive(Debug)]
pub struct ApiToken {
    pub full: String,
    pub prefix: String,
}

/// Password hashing (Argon2 in the infrastructure).
pub trait PasswordHasher {
    /// Hash a plaintext password, returning a PHC string.
    fn hash(&self, plaintext: &str) -> Result<String, DomainError>;

    /// Verify a plaintext against a stored PHC hash.
    fn verify(&self, plaintext: &str, phc: &str) -> Result<bool, DomainError>;
}

/// CSPRNG-backed generation of opaque identifiers and tokens.
pub trait TokenGenerator {
    /// A high-entropy session id (the cookie value), or the failure of the
    /// random source.
    fn new_session_id(&self) -> Result<SessionId, DomainError>;

    /// A new API token; `full` is returned to the caller once.
    fn new_api_token(&self) -> Result<ApiToken, DomainError>;

    /// A new password-reset token (the plaintext sent by email).
    fn new_password_reset_token(&self) -> Result<String, DomainError>;

    /// Hash a token for storage and lookup (SHA-256 hex).
    fn hash_api_token(&self, full: &str) -> String;
}

/// A plain-text email to send.
#[derive(Debug)]
pub struct OutgoingEmail {
    pub to_address: String,
    pub to_name: String,
    pub subject: String,
    pub body: String,
}

/// An email-delivery failure.
#[derive(Debug)]
pub struct EmailError(pub String);

/// Filter for listing users.
#[derive(Debug)]
pub struct UserFilter {
    pub role_id: Option<RoleId>,
    pub status: Option<UserStatus>,
    /// Case-insensitive substring over name and email.
    pub query: Option<String>,
}

impl Default for UserFilter {
    fn default() -> (f: Self)
        ensures
            f.role_id is None,
            f.status is None,
            f.query is None,
    {
        UserFilter { role_id: None, status: None, query: None }
    }
}

/// Query for searching the audit log.
#[derive(Debug)]
pub struct AuditQuery {
    pub category: Option<PermissionCategory>,
    /// Case-insensitive substring over actor, action and target.
    pub query: Option<String>,
    pub limit: i64,
    pub offset: i64,
}

impl Default for AuditQuery {
    fn default() -> (q: Self)
        ensures
            q.category is None,
            q.query is None,
            q.limit == 0,
            q.offset == 0,
    {
        AuditQuery { category: None, query: None, limit: 0, offset: 0 }
    }
}

/// A policy-aware password check: `Ok` when the password satisfies the
/// policy, otherwise the full list of violations as a domain error.
pub fn assert_password_ok(pw: &str, policy: &PasswordPolicy) -> (r: Result<(), DomainError>)
    ensures
        r is Ok <==> satisfies(pw@, *policy),
        r matches Err(e) ==> (e matches DomainError::PasswordPolicy(v) && v@ == violations_of(pw@, *policy)),
{
    match validate_password(pw, policy) {
        Ok(()) => Ok(()),
        Err(v) => Err(DomainError::PasswordPolicy(v)),
    }
}

} // verus!
