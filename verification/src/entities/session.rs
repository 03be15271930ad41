//! Sign-in sessions, keyed by an opaque session id.

use crate::entities::Timestamp;
use crate::ids::{SessionId, UserId};
use vstd::prelude::*;

verus! {

#[derive(Debug)]
pub struct Session {
    pub id: SessionId,
    pub user_id: UserId,
    pub created_at: Timestamp,
    pub expires_at: Timestamp,
}

impl Clone for Session {
    fn clone(&self) -> (r: Self)
        ensures
            r == *self,
    {
        Session { id: self.id.clone(), user_id: self.user_id, created_at: self.created_at, expires_at: self.expires_at }
    }
}

impl Session {
    /// Expired from the instant `expires_at` on.
    pub fn is_expired(&self, now: Timestamp) -> (r: bool)
        ensures
            r == (now >= self.expires_at),
    {
        now >= self.expires_at
    }
}

} // verus!
