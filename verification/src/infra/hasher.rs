//! Argon2id password hashing with a fresh 16-byte salt from the operating
//! system.

use crate::error::DomainError;
use crate::ports::PasswordHasher;
use crate::text::{concat, lemma_starts_with_concat, starts_with};
use argon2::password_hash::{PasswordHasher as _, PasswordVerifier};
use vstd::prelude::*;

verus! {

/// Calls `getrandom::fill` for a 16-byte salt. The bytes are random; on
/// failure the text of `getrandom`'s error is returned.
#[verifier::external_body]
fn os_salt() -> (r: Result<Vec<u8>, String>)
    ensures
        r matches Ok(b) ==> b@.len() == 16,
{
    let mut salt = [0u8; 16];
    match getrandom::fill(&mut salt) {
        Ok(()) => Ok(salt.to_vec()),
        Err(e) => Err(e.to_string()),
    }
}

/// The PHC string that `argon2::Argon2::default().hash_password` produces for
/// a password and salt bytes.
pub uninterp spec fn argon2_phc(password: Seq<char>, salt: Seq<u8>) -> Seq<char>;

/// Whether `argon2::password_hash::PasswordHash::new` parses the PHC string
/// and `argon2::Argon2::default().verify_password` accepts the password
/// against it.
pub uninterp spec fn argon2_accepts(password: Seq<char>, phc: Seq<char>) -> bool;

/// Whether `argon2::password_hash::PasswordHash::new` parses the PHC string
/// and `argon2::Argon2::default().verify_password` refuses the password
/// against it as wrong (`password_hash::Error::Password`).
pub uninterp spec fn argon2_rejects(password: Seq<char>, phc: Seq<char>) -> bool;

/// Why hashing failed, with the text of the outside error.
#[derive(Debug)]
pub enum HashFailure {
    /// `SaltString::encode_b64` refused the salt.
    Salt(String),
    /// `hash_password` failed.
    Hash(String),
}

/// Calls `argon2::password_hash::SaltString::encode_b64` on the salt bytes
/// and `argon2::Argon2::default().hash_password` on the password's bytes. The
/// PHC string is named by [`argon2_phc`], and verifying the same password
/// against it succeeds.
#[verifier::external_body]
fn argon2_hash(plaintext: &str, salt: &[u8]) -> (r: Result<String, HashFailure>)
    ensures
        r matches Ok(h) ==> h@ == argon2_phc(plaintext@, salt@) && argon2_accepts(plaintext@, h@),
{
    let salt = match argon2::password_hash::SaltString::encode_b64(salt) {
        Ok(s) => s,
        Err(e) => return Err(HashFailure::Salt(e.to_string())),
    };
    match argon2::Argon2::default().hash_password(plaintext.as_bytes(), &salt) {
        Ok(h) => Ok(h.to_string()),
        Err(e) => Err(HashFailure::Hash(e.to_string())),
    }
}

/// The outcome of checking a password against a PHC string.
#[derive(Debug)]
pub enum Verdict {
    /// The password matches.
    Match,
    /// The password does not match.
    Mismatch,
    /// The PHC string does not parse.
    BadHash(String),
    /// Verification failed for another reason.
    Failed(String),
}

/// Calls `argon2::password_hash::PasswordHash::new` on the PHC string and
/// `argon2::Argon2::default().verify_password` on the password's bytes,
/// telling a wrong password apart from other failures. `Match` is exactly
/// [`argon2_accepts`] and `Mismatch` exactly [`argon2_rejects`].
#[verifier::external_body]
fn argon2_check(plaintext: &str, phc: &str) -> (r: Verdict)
    ensures
        r is Match <==> argon2_accepts(plaintext@, phc@),
        r is Mismatch <==> argon2_rejects(plaintext@, phc@),
{
    let parsed = match argon2::password_hash::PasswordHash::new(phc) {
        Ok(p) => p,
        Err(e) => return Verdict::BadHash(e.to_string()),
    };
    match argon2::Argon2::default().verify_password(plaintext.as_bytes(), &parsed) {
        Ok(()) => Verdict::Match,
        Err(argon2::password_hash::Error::Password) => Verdict::Mismatch,
        Err(e) => Verdict::Failed(e.to_string()),
    }
}

/// Argon2id hashing with default parameters.
#[derive(Debug, Clone, Copy)]
pub struct Argon2Hasher;

impl PasswordHasher for Argon2Hasher {
    /// The PHC string of the password with 16 fresh random salt bytes; it
    /// verifies against the same password. Failures are repository errors.
    fn hash(&self, plaintext: &str) -> (r: Result<String, DomainError>)
        ensures
            r matches Ok(h) ==> argon2_accepts(plaintext@, h@) && exists|salt: Seq<u8>|
                salt.len() == 16 && h@ == argon2_phc(plaintext@, salt),
            r matches Err(e) ==> e matches DomainError::Repo(m) && (starts_with(m@, "rng failed: "@)
                || starts_with(m@, "salt encode failed: "@) || starts_with(m@, "hashing failed: "@)),
    {
        let salt = match os_salt() {
            Ok(s) => s,
            Err(e) => {
                proof {
                    lemma_starts_with_concat("rng failed: "@, e@);
                }
                return Err(DomainError::Repo(concat("rng failed: ", e.as_str())));
            },
        };
        match argon2_hash(plaintext, salt.as_slice()) {
            Ok(h) => {
                assert(salt@.len() == 16 && h@ == argon2_phc(plaintext@, salt@));
                Ok(h)
            },
            Err(HashFailure::Salt(e)) => {
                proof {
                    lemma_starts_with_concat("salt encode failed: "@, e@);
                }
                Err(DomainError::Repo(concat("salt encode failed: ", e.as_str())))
            },
            Err(HashFailure::Hash(e)) => {
                proof {
                    lemma_starts_with_concat("hashing failed: "@, e@);
                }
                Err(DomainError::Repo(concat("hashing failed: ", e.as_str())))
            },
        }
    }

    /// Whether the password matches the PHC string: `Ok(true)` exactly when
    /// Argon2 accepts it, `Ok(false)` exactly when it refuses it as a wrong
    /// password, and a repository error for a malformed hash or another
    /// failure.
    fn verify(&self, plaintext: &str, phc: &str) -> (r: Result<bool, DomainError>)
        ensures
            r == Ok::<bool, DomainError>(true) <==> argon2_accepts(plaintext@, phc@),
            r == Ok::<bool, DomainError>(false) <==> argon2_rejects(plaintext@, phc@),
            r matches Err(e) ==> e matches DomainError::Repo(m) && (starts_with(m@, "bad hash: "@)
                || starts_with(m@, "verify failed: "@)),
    {
        match argon2_check(plaintext, phc) {
            Verdict::Match => Ok(true),
            Verdict::Mismatch => Ok(false),
            Verdict::BadHash(e) => {
                proof {
                    lemma_starts_with_concat("bad hash: "@, e@);
                }
                Err(DomainError::Repo(concat("bad hash: ", e.as_str())))
            },
            Verdict::Failed(e) => {
                proof {
                    lemma_starts_with_concat("verify failed: "@, e@);
                }
                Err(DomainError::Repo(concat("verify failed: ", e.as_str())))
            },
        }
    }
}

} // verus!
