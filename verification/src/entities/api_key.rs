//! Service-account API keys. The full token is shown exactly once on
//! creation; only a hash and a display prefix are stored.

use crate::entities::Timestamp;
use crate::ids::{ApiKeyId, OrgId};
use crate::text::str_eq;
use vstd::prelude::*;

verus! {

#[derive(Debug, Clone, Copy, PartialEq, Eq, Structural)]
pub enum ApiKeyStatus {
    Active,
    Revoked,
}

/// The stored text of a key status.
pub open spec fn key_status_text(s: ApiKeyStatus) -> Seq<char> {
    match s {
        ApiKeyStatus::Active => "active"@,
        ApiKeyStatus::Revoked => "revoked"@,
    }
}

/// The key status whose stored text is `t`, if any.
pub open spec fn parse_key_status(t: Seq<char>) -> Option<ApiKeyStatus> {
    if t == "active"@ {
        Some(ApiKeyStatus::Active)
    } else if t == "revoked"@ {
        Some(ApiKeyStatus::Revoked)
    } else {
        None
    }
}

impl ApiKeyStatus {
    pub fn as_str(self) -> (r: &'static str)
        ensures
            r@ == key_status_text(self),
    {
        match self {
            ApiKeyStatus::Active => "active",
            ApiKeyStatus::Revoked => "revoked",
        }
    }

    pub fn from_str(s: &str) -> (r: Option<Self>)
        ensures
            r == parse_key_status(s@),
    {
        if str_eq(s, "active") {
            Some(ApiKeyStatus::Active)
        } else if str_eq(s, "revoked") {
            Some(ApiKeyStatus::Revoked)
        } else {
            None
        }
    }
}

/// Reading the stored text of any key status back gives that status.
pub proof fn key_status_round_trip(s: ApiKeyStatus)
    ensures
        parse_key_status(key_status_text(s)) == Some(s),
{
    reveal_strlit("active");
    reveal_strlit("revoked");
    match s {
        ApiKeyStatus::Active => {},
        ApiKeyStatus::Revoked => {
            assert("revoked"@.len() != "active"@.len());
        },
    }
}

/// The fixed set of scopes a key can be granted.
#[derive(Debug, Clone, Copy, PartialEq, Eq, Structural)]
pub enum Scope {
    UsersView,
    UsersEdit,
    AuditView,
    AuditExport,
    RolesMatrix,
    OrgBranding,
}

/// The stored text of a scope.
pub open spec fn scope_text(s: Scope) -> Seq<char> {
    match s {
        Scope::UsersView => "users.view"@,
        Scope::UsersEdit => "users.edit"@,
        Scope::AuditView => "audit.view"@,
        Scope::AuditExport => "audit.export"@,
        Scope::RolesMatrix => "roles.matrix"@,
        Scope::OrgBranding => "org.branding"@,
    }
}

/// The scope whose stored text is `t`, if any.
pub open spec fn parse_scope(t: Seq<char>) -> Option<Scope> {
    if t == "users.view"@ {
        Some(Scope::UsersView)
    } else if t == "users.edit"@ {
        Some(Scope::UsersEdit)
    } else if t == "audit.view"@ {
        Some(Scope::AuditView)
    } else if t == "audit.export"@ {
        Some(Scope::AuditExport)
    } else if t == "roles.matrix"@ {
        Some(Scope::RolesMatrix)
    } else if t == "org.branding"@ {
        Some(Scope::OrgBranding)
    } else {
        None
    }
}

/// Every scope, in option order.
pub open spec fn all_scopes() -> Seq<Scope> {
    seq![
        Scope::UsersView,
        Scope::UsersEdit,
        Scope::AuditView,
        Scope::AuditExport,
        Scope::RolesMatrix,
        Scope::OrgBranding,
    ]
}

impl Scope {
    pub fn as_str(self) -> (r: &'static str)
        ensures
            r@ == scope_text(self),
    {
        match self {
            Scope::UsersView => "users.view",
            Scope::UsersEdit => "users.edit",
            Scope::AuditView => "audit.view",
            Scope::AuditExport => "audit.export",
            Scope::RolesMatrix => "roles.matrix",
            Scope::OrgBranding => "org.branding",
        }
    }

    pub fn from_str(s: &str) -> (r: Option<Self>)
        ensures
            r == parse_scope(s@),
    {
        if str_eq(s, "users.view") {
            Some(Scope::UsersView)
        } else if str_eq(s, "users.edit") {
            Some(Scope::UsersEdit)
        } else if str_eq(s, "audit.view") {
            Some(Scope::AuditView)
        } else if str_eq(s, "audit.export") {
            Some(Scope::AuditExport)
        } else if str_eq(s, "roles.matrix") {
            Some(Scope::RolesMatrix)
        } else if str_eq(s, "org.branding") {
            Some(Scope::OrgBranding)
        } else {
            None
        }
    }

    pub fn all() -> (r: [Scope; 6])
        ensures
            r@ == all_scopes(),
    {
        let r = [
            Scope::UsersView,
            Scope::UsersEdit,
            Scope::AuditView,
            Scope::AuditExport,
            Scope::RolesMatrix,
            Scope::OrgBranding,
        ];
        assert(r@ == all_scopes());
        r
    }
}

/// Reading the stored text of any scope back gives that scope.
pub proof fn scope_text_round_trip(s: Scope)
    ensures
        parse_scope(scope_text(s)) == Some(s),
{
    reveal_strlit("users.view");
    reveal_strlit("users.edit");
    reveal_strlit("audit.view");
    reveal_strlit("audit.export");
    reveal_strlit("roles.matrix");
    reveal_strlit("org.branding");
    match s {
        Scope::UsersView => {},
        Scope::UsersEdit => {
            assert("users.edit"@[6] != "users.view"@[6]);
        },
        Scope::AuditView => {
            assert("audit.view"@[0] != "users.view"@[0]);
            assert("audit.view"@[0] != "users.edit"@[0]);
        },
        Scope::AuditExport => {
            assert("audit.export"@.len() != "users.view"@.len());
            assert("audit.export"@.len() != "users.edit"@.len());
            assert("audit.export"@.len() != "audit.view"@.len());
        },
        Scope::RolesMatrix => {
            assert("roles.matrix"@.len() != "users.view"@.len());
            assert("roles.matrix"@.len() != "users.edit"@.len());
            assert("roles.matrix"@.len() != "audit.view"@.len());
            assert("roles.matrix"@[0] != "audit.export"@[0]);
        },
        Scope::OrgBranding => {
            assert("org.branding"@.len() != "users.view"@.len());
            assert("org.branding"@.len() != "users.edit"@.len());
            assert("org.branding"@.len() != "audit.view"@.len());
            assert("org.branding"@[0] != "audit.export"@[0]);
            assert("org.branding"@[0] != "roles.matrix"@[0]);
        },
    }
}

/// A service-account API key.
#[derive(Debug)]
pub struct ApiKey {
    pub id: ApiKeyId,
    pub org_id: OrgId,
    pub name: String,
    /// Display-only leading characters of the token, e.g. `ms_live_a91f`.
    pub prefix: String,
    /// SHA-256 hex of the full token. The plaintext token is never stored.
    pub token_hash: String,
    pub scopes: Vec<Scope>,
    pub status: ApiKeyStatus,
    pub created_at: Timestamp,
    pub last_used_at: Option<Timestamp>,
}

} // verus!
