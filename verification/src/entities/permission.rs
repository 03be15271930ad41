//! The permission matrix: the single source of truth for "who can do what".
//!
//! Rows are actions (grouped into categories), columns are column roles, and
//! each cell holds a [`PermissionState`]. Roles inherit downward by rank: a
//! role gets the most permissive state among its own cell and the cells of
//! every column role ranked at or below it.

use crate::ids::RoleId;
use crate::text::str_eq;
use vstd::prelude::*;

verus! {

/// The three states a cell can hold, ordered by permissiveness:
/// `Deny < Scope < Allow`.
#[derive(Debug, Clone, Copy, PartialEq, Eq, Hash, PartialOrd, Ord, Structural)]
pub enum PermissionState {
    Deny,
    Scope,
    Allow,
}

/// How permissive a state is: `Deny` 0, `Scope` 1, `Allow` 2.
pub open spec fn permissiveness(s: PermissionState) -> int {
    match s {
        PermissionState::Deny => 0,
        PermissionState::Scope => 1,
        PermissionState::Allow => 2,
    }
}

/// The more permissive of two states.
pub open spec fn most_permissive(a: PermissionState, b: PermissionState) -> PermissionState {
    if permissiveness(a) >= permissiveness(b) {
        a
    } else {
        b
    }
}

/// The stored text of a state.
pub open spec fn state_text(s: PermissionState) -> Seq<char> {
    match s {
        PermissionState::Allow => "allow"@,
        PermissionState::Scope => "scope"@,
        PermissionState::Deny => "deny"@,
    }
}

/// The state whose stored text is `t`, if any.
pub open spec fn parse_state(t: Seq<char>) -> Option<PermissionState> {
    if t == "allow"@ {
        Some(PermissionState::Allow)
    } else if t == "scope"@ {
        Some(PermissionState::Scope)
    } else if t == "deny"@ {
        Some(PermissionState::Deny)
    } else {
        None
    }
}

/// The human label of a state.
pub open spec fn state_label(s: PermissionState) -> Seq<char> {
    match s {
        PermissionState::Allow => "Allowed"@,
        PermissionState::Scope => "Scoped"@,
        PermissionState::Deny => "Denied"@,
    }
}

impl PermissionState {
    pub fn as_str(self) -> (r: &'static str)
        ensures
            r@ == state_text(self),
    {
        match self {
            PermissionState::Allow => "allow",
            PermissionState::Scope => "scope",
            PermissionState::Deny => "deny",
        }
    }

    pub fn from_str(s: &str) -> (r: Option<Self>)
        ensures
            r == parse_state(s@),
    {
        if str_eq(s, "allow") {
            Some(PermissionState::Allow)
        } else if str_eq(s, "scope") {
            Some(PermissionState::Scope)
        } else if str_eq(s, "deny") {
            Some(PermissionState::Deny)
        } else {
            None
        }
    }

    /// Human label: "Allowed", "Scoped" or "Denied".
    pub fn label(self) -> (r: &'static str)
        ensures
            r@ == state_label(self),
    {
        match self {
            PermissionState::Allow => "Allowed",
            PermissionState::Scope => "Scoped",
            PermissionState::Deny => "Denied",
        }
    }

    /// The more permissive of `self` and `other`.
    pub fn most_permissive(self, other: Self) -> (r: Self)
        ensures
            r == most_permissive(self, other),
    {
        let a: u8 = match self {
            PermissionState::Deny => 0,
            PermissionState::Scope => 1,
            PermissionState::Allow => 2,
        };
        let b: u8 = match other {
            PermissionState::Deny => 0,
            PermissionState::Scope => 1,
            PermissionState::Allow => 2,
        };
        if a >= b {
            self
        } else {
            other
        }
    }
}

/// Reading the stored text of any state back gives that state.
pub proof fn state_text_round_trip(s: PermissionState)
    ensures
        parse_state(state_text(s)) == Some(s),
{
    reveal_strlit("allow");
    reveal_strlit("scope");
    reveal_strlit("deny");
    match s {
        PermissionState::Allow => {},
        PermissionState::Scope => {
            assert("scope"@[0] != "allow"@[0]);
        },
        PermissionState::Deny => {
            assert("deny"@.len() != "allow"@.len());
            assert("deny"@.len() != "scope"@.len());
        },
    }
}

/// The five matrix groups.
#[derive(Debug, Clone, Copy, PartialEq, Eq, Hash, Structural)]
pub enum PermissionCategory {
    Users,
    Roles,
    Org,
    Audit,
    Keys,
}

/// The stored text of a category.
pub open spec fn category_text(c: PermissionCategory) -> Seq<char> {
    match c {
        PermissionCategory::Users => "users"@,
        PermissionCategory::Roles => "roles"@,
        PermissionCategory::Org => "org"@,
        PermissionCategory::Audit => "audit"@,
        PermissionCategory::Keys => "keys"@,
    }
}

/// The category whose stored text is `t`, if any.
pub open spec fn parse_category(t: Seq<char>) -> Option<PermissionCategory> {
    if t == "users"@ {
        Some(PermissionCategory::Users)
    } else if t == "roles"@ {
        Some(PermissionCategory::Roles)
    } else if t == "org"@ {
        Some(PermissionCategory::Org)
    } else if t == "audit"@ {
        Some(PermissionCategory::Audit)
    } else if t == "keys"@ {
        Some(PermissionCategory::Keys)
    } else {
        None
    }
}

/// The display label of a category.
pub open spec fn category_label(c: PermissionCategory) -> Seq<char> {
    match c {
        PermissionCategory::Users => "Users"@,
        PermissionCategory::Roles => "Roles & permissions"@,
        PermissionCategory::Org => "Organization settings"@,
        PermissionCategory::Audit => "Audit log"@,
        PermissionCategory::Keys => "Service accounts & API keys"@,
    }
}

impl PermissionCategory {
    pub fn as_str(self) -> (r: &'static str)
        ensures
            r@ == category_text(self),
    {
        match self {
            PermissionCategory::Users => "users",
            PermissionCategory::Roles => "roles",
            PermissionCategory::Org => "org",
            PermissionCategory::Audit => "audit",
            PermissionCategory::Keys => "keys",
        }
    }

    pub fn label(self) -> (r: &'static str)
        ensures
            r@ == category_label(self),
    {
        match self {
            PermissionCategory::Users => "Users",
            PermissionCategory::Roles => "Roles & permissions",
            PermissionCategory::Org => "Organization settings",
            PermissionCategory::Audit => "Audit log",
            PermissionCategory::Keys => "Service accounts & API keys",
        }
    }

    pub fn from_str(s: &str) -> (r: Option<Self>)
        ensures
            r == parse_category(s@),
    {
        if str_eq(s, "users") {
            Some(PermissionCategory::Users)
        } else if str_eq(s, "roles") {
            Some(PermissionCategory::Roles)
        } else if str_eq(s, "org") {
            Some(PermissionCategory::Org)
        } else if str_eq(s, "audit") {
            Some(PermissionCategory::Audit)
        } else if str_eq(s, "keys") {
            Some(PermissionCategory::Keys)
        } else {
            None
        }
    }
}

/// Reading the stored text of any category back gives that category.
pub proof fn category_text_round_trip(c: PermissionCategory)
    ensures
        parse_category(category_text(c)) == Some(c),
{
    reveal_strlit("users");
    reveal_strlit("roles");
    reveal_strlit("org");
    reveal_strlit("audit");
    reveal_strlit("keys");
    match c {
        PermissionCategory::Users => {},
        PermissionCategory::Roles => {
            assert("roles"@[0] != "users"@[0]);
        },
        PermissionCategory::Org => {
            assert("org"@.len() != "users"@.len());
            assert("org"@.len() != "roles"@.len());
        },
        PermissionCategory::Audit => {
            assert("audit"@[0] != "users"@[0]);
            assert("audit"@[0] != "roles"@[0]);
            assert("audit"@.len() != "org"@.len());
        },
        PermissionCategory::Keys => {
            assert("keys"@.len() != "users"@.len());
            assert("keys"@.len() != "roles"@.len());
            assert("keys"@.len() != "org"@.len());
            assert("keys"@.len() != "audit"@.len());
        },
    }
}

/// A single action a role may be permitted to perform, e.g. `users.invite`.
#[derive(Debug)]
pub struct Action {
    pub key: String,
    pub category: PermissionCategory,
    pub label: String,
}

impl Clone for Action {
    fn clone(&self) -> (r: Self)
        ensures
            r == *self,
    {
        Action { key: self.key.clone(), category: self.category, label: self.label.clone() }
    }
}

/// One cell of the grid: the state of `action_key` for `role_id`.
#[derive(Debug)]
pub struct MatrixCell {
    pub action_key: String,
    pub role_id: RoleId,
    pub state: PermissionState,
}

impl Clone for MatrixCell {
    fn clone(&self) -> (r: Self)
        ensures
            r == *self,
    {
        MatrixCell { action_key: self.action_key.clone(), role_id: self.role_id, state: self.state }
    }
}

/// A category header plus its ordered actions.
#[derive(Debug)]
pub struct PermissionGroup {
    pub category: PermissionCategory,
    pub actions: Vec<Action>,
}

/// The full matrix of an organization: groups (rows), column roles with their
/// ranks (most to least powerful), and the cell states.
#[derive(Debug)]
pub struct PermissionMatrix {
    pub groups: Vec<PermissionGroup>,
    pub roles: Vec<(RoleId, i16)>,
    pub cells: Vec<MatrixCell>,
}

/// Whether a cell is the one for `(key, role)`.
pub open spec fn cell_is(c: MatrixCell, key: Seq<char>, role: RoleId) -> bool {
    c.action_key@ == key && c.role_id == role
}

/// The index of the first cell among the first `n` that is the one for
/// `(key, role)`.
pub open spec fn first_cell(cells: Seq<MatrixCell>, key: Seq<char>, role: RoleId, n: int) -> Option<int>
    decreases n,
{
    if n <= 0 {
        None
    } else {
        match first_cell(cells, key, role, n - 1) {
            Some(i) => Some(i),
            None => if cell_is(cells[n - 1], key, role) {
                Some(n - 1)
            } else {
                None
            },
        }
    }
}

/// The stored state of the first cell for `(key, role)`, if there is one.
pub open spec fn raw_state_of(cells: Seq<MatrixCell>, key: Seq<char>, role: RoleId) -> Option<PermissionState> {
    match first_cell(cells, key, role, cells.len() as int) {
        Some(i) => Some(cells[i].state),
        None => None,
    }
}

/// The rank of the first column-role entry for `role`, if there is one.
pub open spec fn rank_among(roles: Seq<(RoleId, i16)>, role: RoleId, n: int) -> Option<i16>
    decreases n,
{
    if n <= 0 {
        None
    } else {
        match rank_among(roles, role, n - 1) {
            Some(r) => Some(r),
            None => if roles[n - 1].0 == role {
                Some(roles[n - 1].1)
            } else {
                None
            },
        }
    }
}

/// The rank of `role` among the column roles.
pub open spec fn rank_of_role(roles: Seq<(RoleId, i16)>, role: RoleId) -> Option<i16> {
    rank_among(roles, role, roles.len() as int)
}

/// Folds a state into the best state seen so far.
pub open spec fn join_state(best: Option<PermissionState>, s: PermissionState) -> PermissionState {
    match best {
        Some(b) => most_permissive(b, s),
        None => s,
    }
}

/// Whether a column-role entry counts for `role` at rank `my_rank`: it is the
/// role itself, or it is ranked strictly below.
pub open spec fn inherits_from(entry: (RoleId, i16), role: RoleId, my_rank: i16) -> bool {
    entry.0 == role || entry.1 < my_rank
}

/// The most permissive stored state of `key` among the first `n` column-role
/// entries that count for `role` at rank `my_rank`.
pub open spec fn inherited_upto(
    roles: Seq<(RoleId, i16)>,
    cells: Seq<MatrixCell>,
    key: Seq<char>,
    role: RoleId,
    my_rank: i16,
    n: int,
) -> Option<PermissionState>
    decreases n,
{
    if n <= 0 {
        None
    } else {
        let prev = inherited_upto(roles, cells, key, role, my_rank, n - 1);
        if inherits_from(roles[n - 1], role, my_rank) {
            match raw_state_of(cells, key, roles[n - 1].0) {
                Some(s) => Some(join_state(prev, s)),
                None => prev,
            }
        } else {
            prev
        }
    }
}

/// The effective state of `(key, role)` after downward inheritance: the most
/// permissive stored state among the role's own cell and the cells of every
/// column role ranked strictly below `role`. `None` when `role` is no column
/// role, or no such cell exists.
pub open spec fn effective_state_of(
    roles: Seq<(RoleId, i16)>,
    cells: Seq<MatrixCell>,
    key: Seq<char>,
    role: RoleId,
) -> Option<PermissionState> {
    match rank_of_role(roles, role) {
        Some(my_rank) => inherited_upto(roles, cells, key, role, my_rank, roles.len() as int),
        None => None,
    }
}

/// The actions of the groups, flattened in matrix order.
pub open spec fn flatten_actions(groups: Seq<PermissionGroup>) -> Seq<Action>
    decreases groups.len(),
{
    if groups.len() == 0 {
        Seq::empty()
    } else {
        flatten_actions(groups.drop_last()) + groups.last().actions@
    }
}

impl PermissionMatrix {
    /// The raw stored state of the `(action, role)` cell, if present.
    pub fn raw_state(&self, action_key: &str, role: RoleId) -> (r: Option<PermissionState>)
        ensures
            r == raw_state_of(self.cells@, action_key@, role),
    {
        let n = self.cells.len();
        let mut i: usize = 0;
        while i < n
            invariant
                n == self.cells@.len(),
                0 <= i <= n,
                first_cell(self.cells@, action_key@, role, i as int) is None,
            decreases n - i,
        {
            let c = &self.cells[i];
            if c.role_id == role && str_eq(c.action_key.as_str(), action_key) {
                assert(first_cell(self.cells@, action_key@, role, (i + 1) as int) == Some(i as int));
                proof {
                    lemma_first_cell_stable(self.cells@, action_key@, role, i as int + 1, n as int);
                }
                return Some(c.state);
            }
            i = i + 1;
        }
        None
    }

    /// The rank of a column role, if it is one.
    pub fn rank_of(&self, role: RoleId) -> (r: Option<i16>)
        ensures
            r == rank_of_role(self.roles@, role),
    {
        let n = self.roles.len();
        let mut i: usize = 0;
        while i < n
            invariant
                n == self.roles@.len(),
                0 <= i <= n,
                rank_among(self.roles@, role, i as int) is None,
            decreases n - i,
        {
            let (id, rank) = self.roles[i];
            if id == role {
                assert(rank_among(self.roles@, role, (i + 1) as int) == Some(rank));
                proof {
                    lemma_rank_among_stable(self.roles@, role, i as int + 1, n as int);
                }
                return Some(rank);
            }
            i = i + 1;
        }
        None
    }

    /// The effective state of `(action, role)` after downward inheritance: the
    /// most permissive state among the role's own cell and the cells of every
    /// column role ranked strictly below it. A role of equal rank passes
    /// nothing on. `None` only when the role is no column role or no such cell
    /// exists; the caller denies by default.
    pub fn effective_state(&self, action_key: &str, role: RoleId) -> (r: Option<PermissionState>)
        ensures
            r == effective_state_of(self.roles@, self.cells@, action_key@, role),
    {
        let my_rank = match self.rank_of(role) {
            Some(r) => r,
            None => return None,
        };
        let n = self.roles.len();
        let mut best: Option<PermissionState> = None;
        let mut i: usize = 0;
        while i < n
            invariant
                n == self.roles@.len(),
                0 <= i <= n,
                best == inherited_upto(self.roles@, self.cells@, action_key@, role, my_rank, i as int),
            decreases n - i,
        {
            let (rid, rank) = self.roles[i];
            if rid == role || rank < my_rank {
                match self.raw_state(action_key, rid) {
                    Some(state) => {
                        best = match best {
                            Some(b) => Some(b.most_permissive(state)),
                            None => Some(state),
                        };
                    },
                    None => {},
                }
            }
            i = i + 1;
        }
        best
    }

    /// All actions, flattened in matrix order.
    pub fn actions(&self) -> (r: Vec<Action>)
        ensures
            r@ == flatten_actions(self.groups@),
    {
        let mut out: Vec<Action> = Vec::new();
        let n = self.groups.len();
        let mut i: usize = 0;
        while i < n
            invariant
                n == self.groups@.len(),
                0 <= i <= n,
                out@ == flatten_actions(self.groups@.subrange(0, i as int)),
            decreases n - i,
        {
            let g = &self.groups[i];
            let m = g.actions.len();
            let mut j: usize = 0;
            let ghost base = out@;
            while j < m
                invariant
                    m == g.actions@.len(),
                    0 <= j <= m,
                    out@ == base + g.actions@.subrange(0, j as int),
                decreases m - j,
            {
                out.push(g.actions[j].clone());
                assert(g.actions@.subrange(0, j as int + 1) == g.actions@.subrange(0, j as int).push(g.actions@[j as int]));
                j = j + 1;
            }
            assert(g.actions@.subrange(0, m as int) == g.actions@);
            assert(self.groups@.subrange(0, i as int + 1).drop_last() == self.groups@.subrange(0, i as int));
            i = i + 1;
        }
        assert(self.groups@.subrange(0, n as int) == self.groups@);
        out
    }
}

/// The first matching cell is a matching cell within the prefix.
pub proof fn lemma_first_cell_bounds(cells: Seq<MatrixCell>, key: Seq<char>, role: RoleId, n: int)
    requires
        n <= cells.len(),
    ensures
        first_cell(cells, key, role, n) matches Some(i) ==> 0 <= i < n && cell_is(cells[i], key, role),
    decreases n,
{
    if n > 0 {
        lemma_first_cell_bounds(cells, key, role, n - 1);
    }
}

/// Once a first matching cell is found among the first `k`, it stays the
/// first match among any longer prefix.
pub proof fn lemma_first_cell_stable(cells: Seq<MatrixCell>, key: Seq<char>, role: RoleId, k: int, n: int)
    requires
        0 <= k <= n,
        first_cell(cells, key, role, k) is Some,
    ensures
        first_cell(cells, key, role, n) == first_cell(cells, key, role, k),
    decreases n - k,
{
    if n > k {
        lemma_first_cell_stable(cells, key, role, k, n - 1);
    }
}

/// Once a first entry for a role is found among the first `k`, it stays the
/// first entry among any longer prefix.
pub proof fn lemma_rank_among_stable(roles: Seq<(RoleId, i16)>, role: RoleId, k: int, n: int)
    requires
        0 <= k <= n,
        rank_among(roles, role, k) is Some,
    ensures
        rank_among(roles, role, n) == rank_among(roles, role, k),
    decreases n - k,
{
    if n > k {
        lemma_rank_among_stable(roles, role, k, n - 1);
    }
}

} // verus!
