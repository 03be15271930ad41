//! Single-use, expiring password-reset tokens. Only the token's hash is
//! stored, so a leaked row cannot be replayed.

use crate::entities::Timestamp;
use crate::ids::{PasswordResetTokenId, UserId};
use vstd::prelude::*;

verus! {

#[derive(Debug)]
pub struct PasswordResetToken {
    pub id: PasswordResetTokenId,
    pub user_id: UserId,
    /// SHA-256 hex of the plaintext token.
    pub token_hash: String,
    pub created_at: Timestamp,
    pub expires_at: Timestamp,
}

impl PasswordResetToken {
    /// Expired from the instant `expires_at` on.
    pub fn is_expired(&self, now: Timestamp) -> (r: bool)
        ensures
            r == (now >= self.expires_at),
    {
        now >= self.expires_at
    }
}

} // verus!
