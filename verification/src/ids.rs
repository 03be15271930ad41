//! Strongly-typed identifiers: each id is the 128-bit value of a UUID, so a
//! `UserId` can never stand where a `RoleId` is expected. A `SessionId` is an
//! opaque high-entropy token instead.

use crate::error::DomainError;
use crate::text::{concat, hex_digit, lemma_starts_with_concat, starts_with};
use vstd::prelude::*;

verus! {

/// A version-4 UUID value in the RFC 4122 variant: its version nibble (bits
/// 76..80) is 4 and its variant bits (62..64) are `10`.
pub open spec fn is_v4_uuid(v: u128) -> bool {
    (v >> 76u128) & 0xfu128 == 4 && (v >> 62u128) & 3u128 == 2
}

/// Calls `getrandom::fill` for 16 random bytes and
/// `uuid::Builder::from_random_bytes(..).into_uuid()`, the documented way to
/// make a random (version 4) UUID without `Uuid::new_v4`'s panic, and hands
/// back its 128-bit value. `from_random_bytes` sets the version and variant
/// bits; the other 122 bits are random. When the operating system has no
/// random source, the text of `getrandom`'s error is returned.
#[verifier::external_body]
fn random_uuid() -> (r: Result<u128, String>)
    ensures
        r matches Ok(v) ==> is_v4_uuid(v),
{
    let mut bytes = [0u8; 16];
    match getrandom::fill(&mut bytes) {
        Ok(()) => Ok(uuid::Builder::from_random_bytes(bytes).into_uuid().as_u128()),
        Err(e) => Err(e.to_string()),
    }
}

/// A fresh random id's value, or the repository error for a missing random
/// source.
fn fresh_uuid() -> (r: Result<u128, DomainError>)
    ensures
        r matches Ok(v) ==> is_v4_uuid(v),
        r matches Err(e) ==> e matches DomainError::Repo(m) && starts_with(m@, "rng failed: "@),
{
    match random_uuid() {
        Ok(v) => Ok(v),
        Err(e) => {
            proof {
                lemma_starts_with_concat("rng failed: "@, e@);
            }
            Err(DomainError::Repo(concat("rng failed: ", e.as_str())))
        },
    }
}

/// The lowest `k` hex digits of `v`, most significant first.
pub open spec fn hex_digits(v: nat, k: nat) -> Seq<char>
    decreases k,
{
    if k == 0 {
        Seq::empty()
    } else {
        hex_digits(v / 16, (k - 1) as nat).push(hex_digit((v % 16) as int))
    }
}

/// The hyphenated text of the UUID with this 128-bit value: its 32
/// lower-case hex digits, most significant first, grouped 8-4-4-4-12.
pub open spec fn uuid_hyphenated(value: u128) -> Seq<char> {
    let h = hex_digits(value as nat, 32);
    h.subrange(0, 8) + seq!['-'] + h.subrange(8, 12) + seq!['-'] + h.subrange(12, 16) + seq!['-']
        + h.subrange(16, 20) + seq!['-'] + h.subrange(20, 32)
}

/// Calls `uuid::Uuid::from_u128` and `to_string`: the UUID's bytes are the
/// value's big-endian bytes, and its `Display` writes them hyphenated in
/// lower-case hex.
#[verifier::external_body]
pub(crate) fn uuid_text(value: u128) -> (s: String)
    ensures
        s@ == uuid_hyphenated(value),
{
    uuid::Uuid::from_u128(value).to_string()
}

/// Identifies a user.
#[derive(Debug, Clone, Copy, PartialEq, Eq, Hash, Structural)]
pub struct UserId(pub u128);

/// Identifies a role.
#[derive(Debug, Clone, Copy, PartialEq, Eq, Hash, Structural)]
pub struct RoleId(pub u128);

/// Identifies an organization.
#[derive(Debug, Clone, Copy, PartialEq, Eq, Hash, Structural)]
pub struct OrgId(pub u128);

/// Identifies an API key.
#[derive(Debug, Clone, Copy, PartialEq, Eq, Hash, Structural)]
pub struct ApiKeyId(pub u128);

/// Identifies an audit event.
#[derive(Debug, Clone, Copy, PartialEq, Eq, Hash, Structural)]
pub struct AuditEventId(pub u128);

/// Identifies a password-reset token.
#[derive(Debug, Clone, Copy, PartialEq, Eq, Hash, Structural)]
pub struct PasswordResetTokenId(pub u128);

/// Identifies an invitation token.
#[derive(Debug, Clone, Copy, PartialEq, Eq, Hash, Structural)]
pub struct InviteTokenId(pub u128);

impl UserId {
    /// A fresh random (version 4) id; a repository error when the operating
    /// system has no random source.
    pub fn new() -> (r: Result<Self, DomainError>)
        ensures
            r matches Ok(id) ==> is_v4_uuid(id.0),
            r matches Err(e) ==> e matches DomainError::Repo(m) && starts_with(m@, "rng failed: "@),
    {
        match fresh_uuid() {
            Ok(v) => Ok(UserId(v)),
            Err(e) => Err(e),
        }
    }

    pub fn from_u128(value: u128) -> (id: Self)
        ensures
            id.0 == value,
    {
        UserId(value)
    }

    pub fn as_u128(&self) -> (value: u128)
        ensures
            value == self.0,
    {
        self.0
    }

    /// The id as hyphenated UUID text.
    pub fn text(&self) -> (s: String)
        ensures
            s@ == uuid_hyphenated(self.0),
    {
        uuid_text(self.0)
    }
}

impl RoleId {
    /// A fresh random (version 4) id; a repository error when the operating
    /// system has no random source.
    pub fn new() -> (r: Result<Self, DomainError>)
        ensures
            r matches Ok(id) ==> is_v4_uuid(id.0),
            r matches Err(e) ==> e matches DomainError::Repo(m) && starts_with(m@, "rng failed: "@),
    {
        match fresh_uuid() {
            Ok(v) => Ok(RoleId(v)),
            Err(e) => Err(e),
        }
    }

    pub fn from_u128(value: u128) -> (id: Self)
        ensures
            id.0 == value,
    {
        RoleId(value)
    }

    pub fn as_u128(&self) -> (value: u128)
        ensures
            value == self.0,
    {
        self.0
    }

    /// The id as hyphenated UUID text.
    pub fn text(&self) -> (s: String)
        ensures
            s@ == uuid_hyphenated(self.0),
    {
        uuid_text(self.0)
    }
}

impl OrgId {
    /// A fresh random (version 4) id; a repository error when the operating
    /// system has no random source.
    pub fn new() -> (r: Result<Self, DomainError>)
        ensures
            r matches Ok(id) ==> is_v4_uuid(id.0),
            r matches Err(e) ==> e matches DomainError::Repo(m) && starts_with(m@, "rng failed: "@),
    {
        match fresh_uuid() {
            Ok(v) => Ok(OrgId(v)),
            Err(e) => Err(e),
        }
    }

    pub fn from_u128(value: u128) -> (id: Self)
        ensures
            id.0 == value,
    {
        OrgId(value)
    }

    pub fn as_u128(&self) -> (value: u128)
        ensures
            value == self.0,
    {
        self.0
    }
}

impl ApiKeyId {
    /// A fresh random (version 4) id; a repository error when the operating
    /// system has no random source.
    pub fn new() -> (r: Result<Self, DomainError>)
        ensures
            r matches Ok(id) ==> is_v4_uuid(id.0),
            r matches Err(e) ==> e matches DomainError::Repo(m) && starts_with(m@, "rng failed: "@),
    {
        match fresh_uuid() {
            Ok(v) => Ok(ApiKeyId(v)),
            Err(e) => Err(e),
        }
    }

    pub fn from_u128(value: u128) -> (id: Self)
        ensures
            id.0 == value,
    {
        ApiKeyId(value)
    }

    pub fn as_u128(&self) -> (value: u128)
        ensures
            value == self.0,
    {
        self.0
    }

    /// The id as hyphenated UUID text.
    pub fn text(&self) -> (s: String)
        ensures
            s@ == uuid_hyphenated(self.0),
    {
        uuid_text(self.0)
    }
}

impl AuditEventId {
    /// A fresh random (version 4) id; a repository error when the operating
    /// system has no random source.
    pub fn new() -> (r: Result<Self, DomainError>)
        ensures
            r matches Ok(id) ==> is_v4_uuid(id.0),
            r matches Err(e) ==> e matches DomainError::Repo(m) && starts_with(m@, "rng failed: "@),
    {
        match fresh_uuid() {
            Ok(v) => Ok(AuditEventId(v)),
            Err(e) => Err(e),
        }
    }

    pub fn from_u128(value: u128) -> (id: Self)
        ensures
            id.0 == value,
    {
        AuditEventId(value)
    }
}

impl PasswordResetTokenId {
    /// A fresh random (version 4) id; a repository error when the operating
    /// system has no random source.
    pub fn new() -> (r: Result<Self, DomainError>)
        ensures
            r matches Ok(id) ==> is_v4_uuid(id.0),
            r matches Err(e) ==> e matches DomainError::Repo(m) && starts_with(m@, "rng failed: "@),
    {
        match fresh_uuid() {
            Ok(v) => Ok(PasswordResetTokenId(v)),
            Err(e) => Err(e),
        }
    }

    pub fn from_u128(value: u128) -> (id: Self)
        ensures
            id.0 == value,
    {
        PasswordResetTokenId(value)
    }
}

impl InviteTokenId {
    /// A fresh random (version 4) id; a repository error when the operating
    /// system has no random source.
    pub fn new() -> (r: Result<Self, DomainError>)
        ensures
            r matches Ok(id) ==> is_v4_uuid(id.0),
            r matches Err(e) ==> e matches DomainError::Repo(m) && starts_with(m@, "rng failed: "@),
    {
        match fresh_uuid() {
            Ok(v) => Ok(InviteTokenId(v)),
            Err(e) => Err(e),
        }
    }

    pub fn from_u128(value: u128) -> (id: Self)
        ensures
            id.0 == value,
    {
        InviteTokenId(value)
    }
}

/// An opaque, high-entropy session identifier: the value of the session
/// cookie. It comes from a CSPRNG token, not a UUID.
#[derive(Debug, PartialEq, Eq, Hash)]
pub struct SessionId(pub String);

impl SessionId {
    pub fn new(raw: String) -> (id: Self)
        ensures
            id.0@ == raw@,
    {
        SessionId(raw)
    }

    pub fn as_str(&self) -> (s: &str)
        ensures
            s@ == self.0@,
    {
        self.0.as_str()
    }
}

impl Clone for SessionId {
    fn clone(&self) -> (r: Self)
        ensures
            r == *self,
    {
        SessionId(self.0.clone())
    }
}

} // verus!
