//! Roles: the seven default (builtin) roles plus organization-defined custom
//! roles. A role's numeric `rank` drives both downward inheritance and the
//! no-privilege-escalation guard.

use crate::ids::{OrgId, RoleId};
use crate::text::str_eq;
use vstd::prelude::*;

verus! {

/// The seven default roles. The first five are matrix columns; `Guest` and
/// `Service` appear in the roster but are not permission columns.
#[derive(Debug, Clone, Copy, PartialEq, Eq, Structural)]
pub enum BuiltinRole {
    Owner,
    Admin,
    Manager,
    Member,
    Viewer,
    Guest,
    Service,
}

/// The stable key of a builtin role.
pub open spec fn builtin_key(b: BuiltinRole) -> Seq<char> {
    match b {
        BuiltinRole::Owner => "owner"@,
        BuiltinRole::Admin => "admin"@,
        BuiltinRole::Manager => "manager"@,
        BuiltinRole::Member => "member"@,
        BuiltinRole::Viewer => "viewer"@,
        BuiltinRole::Guest => "guest"@,
        BuiltinRole::Service => "service"@,
    }
}

/// The builtin role whose key is `t`, if any.
pub open spec fn parse_builtin(t: Seq<char>) -> Option<BuiltinRole> {
    if t == "owner"@ {
        Some(BuiltinRole::Owner)
    } else if t == "admin"@ {
        Some(BuiltinRole::Admin)
    } else if t == "manager"@ {
        Some(BuiltinRole::Manager)
    } else if t == "member"@ {
        Some(BuiltinRole::Member)
    } else if t == "viewer"@ {
        Some(BuiltinRole::Viewer)
    } else if t == "guest"@ {
        Some(BuiltinRole::Guest)
    } else if t == "service"@ {
        Some(BuiltinRole::Service)
    } else {
        None
    }
}

/// The rank of a builtin role: higher is more powerful.
pub open spec fn builtin_rank(b: BuiltinRole) -> i16 {
    match b {
        BuiltinRole::Owner => 60,
        BuiltinRole::Admin => 50,
        BuiltinRole::Manager => 40,
        BuiltinRole::Member => 30,
        BuiltinRole::Viewer => 20,
        BuiltinRole::Guest => 10,
        BuiltinRole::Service => 10,
    }
}

/// The display name of a builtin role.
pub open spec fn builtin_display_name(b: BuiltinRole) -> Seq<char> {
    match b {
        BuiltinRole::Owner => "Owner"@,
        BuiltinRole::Admin => "Admin"@,
        BuiltinRole::Manager => "Manager"@,
        BuiltinRole::Member => "Member"@,
        BuiltinRole::Viewer => "Viewer"@,
        BuiltinRole::Guest => "Guest"@,
        BuiltinRole::Service => "Service account"@,
    }
}

/// Whether a builtin role is a permission-matrix column.
pub open spec fn builtin_is_column(b: BuiltinRole) -> bool {
    match b {
        BuiltinRole::Guest | BuiltinRole::Service => false,
        _ => true,
    }
}

/// All seven defaults, most to least powerful.
pub open spec fn builtin_order() -> Seq<BuiltinRole> {
    seq![
        BuiltinRole::Owner,
        BuiltinRole::Admin,
        BuiltinRole::Manager,
        BuiltinRole::Member,
        BuiltinRole::Viewer,
        BuiltinRole::Guest,
        BuiltinRole::Service,
    ]
}

impl BuiltinRole {
    /// The stable key used in storage and the API (e.g. `"owner"`).
    pub fn key(self) -> (r: &'static str)
        ensures
            r@ == builtin_key(self),
    {
        match self {
            BuiltinRole::Owner => "owner",
            BuiltinRole::Admin => "admin",
            BuiltinRole::Manager => "manager",
            BuiltinRole::Member => "member",
            BuiltinRole::Viewer => "viewer",
            BuiltinRole::Guest => "guest",
            BuiltinRole::Service => "service",
        }
    }

    /// Rank: higher is more powerful.
    pub fn rank(self) -> (r: i16)
        ensures
            r == builtin_rank(self),
    {
        match self {
            BuiltinRole::Owner => 60,
            BuiltinRole::Admin => 50,
            BuiltinRole::Manager => 40,
            BuiltinRole::Member => 30,
            BuiltinRole::Viewer => 20,
            BuiltinRole::Guest => 10,
            BuiltinRole::Service => 10,
        }
    }

    /// Display name shown in the UI.
    pub fn display_name(self) -> (r: &'static str)
        ensures
            r@ == builtin_display_name(self),
    {
        match self {
            BuiltinRole::Owner => "Owner",
            BuiltinRole::Admin => "Admin",
            BuiltinRole::Manager => "Manager",
            BuiltinRole::Member => "Member",
            BuiltinRole::Viewer => "Viewer",
            BuiltinRole::Guest => "Guest",
            BuiltinRole::Service => "Service account",
        }
    }

    /// All seven defaults, most to least powerful (columns first, then guest
    /// and service).
    pub fn ordered() -> (r: [BuiltinRole; 7])
        ensures
            r@ == builtin_order(),
    {
        let r = [
            BuiltinRole::Owner,
            BuiltinRole::Admin,
            BuiltinRole::Manager,
            BuiltinRole::Member,
            BuiltinRole::Viewer,
            BuiltinRole::Guest,
            BuiltinRole::Service,
        ];
        assert(r@ == builtin_order());
        r
    }

    pub fn is_column(self) -> (r: bool)
        ensures
            r == builtin_is_column(self),
    {
        match self {
            BuiltinRole::Owner
            | BuiltinRole::Admin
            | BuiltinRole::Manager
            | BuiltinRole::Member
            | BuiltinRole::Viewer => true,
            _ => false,
        }
    }

    pub fn from_key(key: &str) -> (r: Option<Self>)
        ensures
            r == parse_builtin(key@),
    {
        if str_eq(key, "owner") {
            Some(BuiltinRole::Owner)
        } else if str_eq(key, "admin") {
            Some(BuiltinRole::Admin)
        } else if str_eq(key, "manager") {
            Some(BuiltinRole::Manager)
        } else if str_eq(key, "member") {
            Some(BuiltinRole::Member)
        } else if str_eq(key, "viewer") {
            Some(BuiltinRole::Viewer)
        } else if str_eq(key, "guest") {
            Some(BuiltinRole::Guest)
        } else if str_eq(key, "service") {
            Some(BuiltinRole::Service)
        } else {
            None
        }
    }
}

/// Reading the key of any builtin role back gives that role.
pub proof fn builtin_key_round_trip(b: BuiltinRole)
    ensures
        parse_builtin(builtin_key(b)) == Some(b),
{
    reveal_strlit("owner");
    reveal_strlit("admin");
    reveal_strlit("manager");
    reveal_strlit("member");
    reveal_strlit("viewer");
    reveal_strlit("guest");
    reveal_strlit("service");
    match b {
        BuiltinRole::Owner => {},
        BuiltinRole::Admin => {
            assert("admin"@[0] != "owner"@[0]);
        },
        BuiltinRole::Manager => {
            assert("manager"@.len() != "owner"@.len());
            assert("manager"@.len() != "admin"@.len());
        },
        BuiltinRole::Member => {
            assert("member"@.len() != "owner"@.len());
            assert("member"@.len() != "admin"@.len());
            assert("member"@.len() != "manager"@.len());
        },
        BuiltinRole::Viewer => {
            assert("viewer"@.len() != "owner"@.len());
            assert("viewer"@.len() != "admin"@.len());
            assert("viewer"@.len() != "manager"@.len());
            assert("viewer"@[0] != "member"@[0]);
        },
        BuiltinRole::Guest => {
            assert("guest"@[0] != "owner"@[0]);
            assert("guest"@[0] != "admin"@[0]);
            assert("guest"@.len() != "manager"@.len());
            assert("guest"@.len() != "member"@.len());
            assert("guest"@.len() != "viewer"@.len());
        },
        BuiltinRole::Service => {
            assert("service"@.len() != "owner"@.len());
            assert("service"@.len() != "admin"@.len());
            assert("service"@[0] != "manager"@[0]);
            assert("service"@.len() != "member"@.len());
            assert("service"@.len() != "viewer"@.len());
            assert("service"@.len() != "guest"@.len());
        },
    }
}

/// The default roles are listed most to least powerful: ranks never rise
/// along the order, and the matrix columns come first.
pub proof fn builtin_order_by_rank(i: int, j: int)
    requires
        0 <= i <= j < 7,
    ensures
        builtin_rank(builtin_order()[i]) >= builtin_rank(builtin_order()[j]),
        builtin_is_column(builtin_order()[j]) ==> builtin_is_column(builtin_order()[i]),
{
}

/// A role of an organization.
#[derive(Debug)]
pub struct Role {
    pub id: RoleId,
    pub org_id: OrgId,
    /// Stable slug, e.g. `"owner"` or a custom `"stager"`.
    pub key: String,
    pub name: String,
    /// `Some(..)` for the seven defaults; `None` for custom roles.
    pub builtin: Option<BuiltinRole>,
    /// Whether this role is a column in the permission matrix.
    pub is_column: bool,
    /// Custom roles copy their cells from a base role.
    pub base_role_id: Option<RoleId>,
    /// Higher is more powerful.
    pub rank: i16,
}

impl Clone for Role {
    fn clone(&self) -> (r: Self)
        ensures
            r == *self,
    {
        Role {
            id: self.id,
            org_id: self.org_id,
            key: self.key.clone(),
            name: self.name.clone(),
            builtin: self.builtin,
            is_column: self.is_column,
            base_role_id: self.base_role_id,
            rank: self.rank,
        }
    }
}

impl Role {
    pub fn is_owner(&self) -> (r: bool)
        ensures
            r == (self.builtin == Some(BuiltinRole::Owner)),
    {
        match self.builtin {
            Some(BuiltinRole::Owner) => true,
            _ => false,
        }
    }

    pub fn is_custom(&self) -> (r: bool)
        ensures
            r == (self.builtin is None),
    {
        self.builtin.is_none()
    }
}

} // verus!
