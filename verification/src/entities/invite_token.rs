//! Single-use, expiring invitation tokens. Only the token's hash is stored.

use crate::entities::Timestamp;
use crate::ids::{InviteTokenId, UserId};
use vstd::prelude::*;

verus! {

#[derive(Debug)]
pub struct InviteToken {
    pub id: InviteTokenId,
    pub user_id: UserId,
    /// SHA-256 hex of the plaintext token.
    pub token_hash: String,
    pub created_at: Timestamp,
    pub expires_at: Timestamp,
}

impl InviteToken {
    /// Expired from the instant `expires_at` on.
    pub fn is_expired(&self, now: Timestamp) -> (r: bool)
        ensures
            r == (now >= self.expires_at),
    {
        now >= self.expires_at
    }
}

} // verus!
