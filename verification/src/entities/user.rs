//! Users: human identities within an organization.

use crate::entities::email::Email;
use crate::entities::Timestamp;
use crate::ids::{OrgId, RoleId, UserId};
use crate::text::str_eq;
use vstd::prelude::*;

verus! {

#[derive(Debug, Clone, Copy, PartialEq, Eq, Structural)]
pub enum UserStatus {
    Active,
    Invited,
    Deactivated,
}

/// The stored text of a user status.
pub open spec fn user_status_text(s: UserStatus) -> Seq<char> {
    match s {
        UserStatus::Active => "active"@,
        UserStatus::Invited => "invited"@,
        UserStatus::Deactivated => "deactivated"@,
    }
}

/// The user status whose stored text is `t`, if any.
pub open spec fn parse_user_status(t: Seq<char>) -> Option<UserStatus> {
    if t == "active"@ {
        Some(UserStatus::Active)
    } else if t == "invited"@ {
        Some(UserStatus::Invited)
    } else if t == "deactivated"@ {
        Some(UserStatus::Deactivated)
    } else {
        None
    }
}

impl UserStatus {
    pub fn as_str(self) -> (r: &'static str)
        ensures
            r@ == user_status_text(self),
    {
        match self {
            UserStatus::Active => "active",
            UserStatus::Invited => "invited",
            UserStatus::Deactivated => "deactivated",
        }
    }

    pub fn from_str(s: &str) -> (r: Option<Self>)
        ensures
            r == parse_user_status(s@),
    {
        if str_eq(s, "active") {
            Some(UserStatus::Active)
        } else if str_eq(s, "invited") {
            Some(UserStatus::Invited)
        } else if str_eq(s, "deactivated") {
            Some(UserStatus::Deactivated)
        } else {
            None
        }
    }
}

/// Reading the stored text of any user status back gives that status.
pub proof fn user_status_round_trip(s: UserStatus)
    ensures
        parse_user_status(user_status_text(s)) == Some(s),
{
    reveal_strlit("active");
    reveal_strlit("invited");
    reveal_strlit("deactivated");
    match s {
        UserStatus::Active => {},
        UserStatus::Invited => {
            assert("invited"@.len() != "active"@.len());
        },
        UserStatus::Deactivated => {
            assert("deactivated"@.len() != "active"@.len());
            assert("deactivated"@.len() != "invited"@.len());
        },
    }
}

#[derive(Debug)]
pub struct User {
    pub id: UserId,
    pub org_id: OrgId,
    pub email: Email,
    pub name: String,
    /// The user's current primary role.
    pub role_id: RoleId,
    pub status: UserStatus,
    /// Free-text scope label (team or department), e.g. "Hampstead".
    pub scope: Option<String>,
    /// Argon2 PHC string; `None` for invited users without a password yet.
    pub password_hash: Option<String>,
    pub created_at: Timestamp,
    pub last_active_at: Option<Timestamp>,
}

impl Clone for User {
    fn clone(&self) -> (r: Self)
        ensures
            r == *self,
    {
        User {
            id: self.id,
            org_id: self.org_id,
            email: self.email.clone(),
            name: self.name.clone(),
            role_id: self.role_id,
            status: self.status,
            scope: match &self.scope {
                Some(s) => Some(s.clone()),
                None => None,
            },
            password_hash: match &self.password_hash {
                Some(h) => Some(h.clone()),
                None => None,
            },
            created_at: self.created_at,
            last_active_at: self.last_active_at,
        }
    }
}

impl User {
    pub fn is_active(&self) -> (r: bool)
        ensures
            r == (self.status == UserStatus::Active),
    {
        self.status == UserStatus::Active
    }
}

} // verus!
