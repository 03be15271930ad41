//! The canonical default dataset: the seven roles, the action catalog, and
//! the default permission states. Both the first-boot seed and in-memory test
//! worlds build from it, so the two never drift.

use crate::entities::permission::{permissiveness, Action, MatrixCell, PermissionCategory, PermissionGroup, PermissionState};
use crate::ids::RoleId;
use crate::entities::role::{builtin_key, builtin_rank, BuiltinRole};
use crate::services::matrix_rules::{lock_reason_of, owner_column_allows, owner_only};
use crate::text::{owned, str_eq};
use vstd::prelude::*;

verus! {

/// The number of catalogued actions.
pub open spec fn seed_row_count() -> int {
    16
}

/// The key of catalogued action `i`.
pub open spec fn seed_key(i: int) -> Seq<char> {
    if i == 0 {
        "users.invite"@
    } else if i == 1 {
        "users.view"@
    } else if i == 2 {
        "users.edit"@
    } else if i == 3 {
        "users.deactivate"@
    } else if i == 4 {
        "roles.edit"@
    } else if i == 5 {
        "roles.assign"@
    } else if i == 6 {
        "roles.owner"@
    } else if i == 7 {
        "roles.matrix"@
    } else if i == 8 {
        "org.branding"@
    } else if i == 9 {
        "org.auth"@
    } else if i == 10 {
        "org.transfer"@
    } else if i == 11 {
        "org.delete"@
    } else if i == 12 {
        "audit.view"@
    } else if i == 13 {
        "audit.export"@
    } else if i == 14 {
        "keys.manage"@
    } else if i == 15 {
        "keys.scope"@
    } else {
        Seq::empty()
    }
}

/// The category of catalogued action `i`.
pub open spec fn seed_category(i: int) -> PermissionCategory {
    if i == 0 {
        PermissionCategory::Users
    } else if i == 1 {
        PermissionCategory::Users
    } else if i == 2 {
        PermissionCategory::Users
    } else if i == 3 {
        PermissionCategory::Users
    } else if i == 4 {
        PermissionCategory::Roles
    } else if i == 5 {
        PermissionCategory::Roles
    } else if i == 6 {
        PermissionCategory::Roles
    } else if i == 7 {
        PermissionCategory::Roles
    } else if i == 8 {
        PermissionCategory::Org
    } else if i == 9 {
        PermissionCategory::Org
    } else if i == 10 {
        PermissionCategory::Org
    } else if i == 11 {
        PermissionCategory::Org
    } else if i == 12 {
        PermissionCategory::Audit
    } else if i == 13 {
        PermissionCategory::Audit
    } else if i == 14 {
        PermissionCategory::Keys
    } else if i == 15 {
        PermissionCategory::Keys
    } else {
        PermissionCategory::Keys
    }
}

/// The label of catalogued action `i`.
pub open spec fn seed_label(i: int) -> Seq<char> {
    if i == 0 {
        "Invite user"@
    } else if i == 1 {
        "View user list"@
    } else if i == 2 {
        "Edit user profile"@
    } else if i == 3 {
        "Deactivate user"@
    } else if i == 4 {
        "Create / edit role"@
    } else if i == 5 {
        "Assign role"@
    } else if i == 6 {
        "Grant Owner"@
    } else if i == 7 {
        "View permission matrix"@
    } else if i == 8 {
        "Edit org profile / branding"@
    } else if i == 9 {
        "Configure auth (MFA, SSO, policy)"@
    } else if i == 10 {
        "Transfer ownership"@
    } else if i == 11 {
        "Delete organization"@
    } else if i == 12 {
        "View audit log"@
    } else if i == 13 {
        "Export audit log"@
    } else if i == 14 {
        "Create / revoke key"@
    } else if i == 15 {
        "Scope key permissions"@
    } else {
        Seq::empty()
    }
}

/// The default states of catalogued action `i` for the five column roles,
/// in order owner, admin, manager, member, viewer.
pub open spec fn seed_states(i: int) -> Seq<PermissionState> {
    if i == 0 {
        seq![PermissionState::Allow, PermissionState::Allow, PermissionState::Scope, PermissionState::Deny, PermissionState::Deny]
    } else if i == 1 {
        seq![PermissionState::Allow, PermissionState::Allow, PermissionState::Scope, PermissionState::Deny, PermissionState::Deny]
    } else if i == 2 {
        seq![PermissionState::Allow, PermissionState::Allow, PermissionState::Scope, PermissionState::Scope, PermissionState::Scope]
    } else if i == 3 {
        seq![PermissionState::Allow, PermissionState::Allow, PermissionState::Scope, PermissionState::Deny, PermissionState::Deny]
    } else if i == 4 {
        seq![PermissionState::Allow, PermissionState::Allow, PermissionState::Deny, PermissionState::Deny, PermissionState::Deny]
    } else if i == 5 {
        seq![PermissionState::Allow, PermissionState::Scope, PermissionState::Scope, PermissionState::Deny, PermissionState::Deny]
    } else if i == 6 {
        seq![PermissionState::Allow, PermissionState::Deny, PermissionState::Deny, PermissionState::Deny, PermissionState::Deny]
    } else if i == 7 {
        seq![PermissionState::Allow, PermissionState::Allow, PermissionState::Allow, PermissionState::Deny, PermissionState::Deny]
    } else if i == 8 {
        seq![PermissionState::Allow, PermissionState::Allow, PermissionState::Deny, PermissionState::Deny, PermissionState::Deny]
    } else if i == 9 {
        seq![PermissionState::Allow, PermissionState::Allow, PermissionState::Deny, PermissionState::Deny, PermissionState::Deny]
    } else if i == 10 {
        seq![PermissionState::Allow, PermissionState::Deny, PermissionState::Deny, PermissionState::Deny, PermissionState::Deny]
    } else if i == 11 {
        seq![PermissionState::Allow, PermissionState::Deny, PermissionState::Deny, PermissionState::Deny, PermissionState::Deny]
    } else if i == 12 {
        seq![PermissionState::Allow, PermissionState::Allow, PermissionState::Scope, PermissionState::Deny, PermissionState::Deny]
    } else if i == 13 {
        seq![PermissionState::Allow, PermissionState::Allow, PermissionState::Deny, PermissionState::Deny, PermissionState::Deny]
    } else if i == 14 {
        seq![PermissionState::Allow, PermissionState::Allow, PermissionState::Deny, PermissionState::Deny, PermissionState::Deny]
    } else if i == 15 {
        seq![PermissionState::Allow, PermissionState::Allow, PermissionState::Deny, PermissionState::Deny, PermissionState::Deny]
    } else {
        Seq::empty()
    }
}

/// The five column roles, most to least powerful.
pub open spec fn column_role(j: int) -> BuiltinRole {
    if j == 0 {
        BuiltinRole::Owner
    } else if j == 1 {
        BuiltinRole::Admin
    } else if j == 2 {
        BuiltinRole::Manager
    } else if j == 3 {
        BuiltinRole::Member
    } else {
        BuiltinRole::Viewer
    }
}

/// The position of a builtin role among the column roles, if it is one.
pub open spec fn column_index(b: BuiltinRole) -> Option<int> {
    match b {
        BuiltinRole::Owner => Some(0),
        BuiltinRole::Admin => Some(1),
        BuiltinRole::Manager => Some(2),
        BuiltinRole::Member => Some(3),
        BuiltinRole::Viewer => Some(4),
        _ => None,
    }
}

/// The matrix groups, in display order.
pub open spec fn category_order() -> Seq<PermissionCategory> {
    seq![
        PermissionCategory::Users,
        PermissionCategory::Roles,
        PermissionCategory::Org,
        PermissionCategory::Audit,
        PermissionCategory::Keys,
    ]
}

/// An action as plain values: key, category, label.
pub open spec fn action_view(a: Action) -> (Seq<char>, PermissionCategory, Seq<char>) {
    (a.key@, a.category, a.label@)
}

/// The catalogued actions among the first `n` that belong to `cat`, in order.
pub open spec fn rows_in(cat: PermissionCategory, n: int) -> Seq<(Seq<char>, PermissionCategory, Seq<char>)>
    decreases n,
{
    if n <= 0 {
        Seq::empty()
    } else if seed_category(n - 1) == cat {
        rows_in(cat, n - 1).push((seed_key(n - 1), seed_category(n - 1), seed_label(n - 1)))
    } else {
        rows_in(cat, n - 1)
    }
}

/// The first catalogued action among the first `n` with key `key`.
pub open spec fn first_row(key: Seq<char>, n: int) -> Option<int>
    decreases n,
{
    if n <= 0 {
        None
    } else {
        match first_row(key, n - 1) {
            Some(i) => Some(i),
            None => if seed_key(n - 1) == key {
                Some(n - 1)
            } else {
                None
            },
        }
    }
}

/// The default state of `(key, role)`: the column role's state in the first
/// catalogued action with that key.
pub open spec fn default_state_of(key: Seq<char>, role: BuiltinRole) -> Option<PermissionState> {
    match column_index(role) {
        Some(j) => match first_row(key, seed_row_count()) {
            Some(i) => Some(seed_states(i)[j]),
            None => None,
        },
        None => None,
    }
}

/// One catalogued action with its default states.
struct SeedRow {
    key: &'static str,
    category: PermissionCategory,
    label: &'static str,
    states: [PermissionState; 5],
}

/// Catalogued action `i`.
fn seed_row(i: usize) -> (r: SeedRow)
    requires
        i < 16,
    ensures
        r.key@ == seed_key(i as int),
        r.category == seed_category(i as int),
        r.label@ == seed_label(i as int),
        r.states@ == seed_states(i as int),
{
    match i {
        0 => {
            let states = [PermissionState::Allow, PermissionState::Allow, PermissionState::Scope, PermissionState::Deny, PermissionState::Deny];
            assert(states@ == seed_states(0));
            SeedRow { key: "users.invite", category: PermissionCategory::Users, label: "Invite user", states }
        },
        1 => {
            let states = [PermissionState::Allow, PermissionState::Allow, PermissionState::Scope, PermissionState::Deny, PermissionState::Deny];
            assert(states@ == seed_states(1));
            SeedRow { key: "users.view", category: PermissionCategory::Users, label: "View user list", states }
        },
        2 => {
            let states = [PermissionState::Allow, PermissionState::Allow, PermissionState::Scope, PermissionState::Scope, PermissionState::Scope];
            assert(states@ == seed_states(2));
            SeedRow { key: "users.edit", category: PermissionCategory::Users, label: "Edit user profile", states }
        },
        3 => {
            let states = [PermissionState::Allow, PermissionState::Allow, PermissionState::Scope, PermissionState::Deny, PermissionState::Deny];
            assert(states@ == seed_states(3));
            SeedRow { key: "users.deactivate", category: PermissionCategory::Users, label: "Deactivate user", states }
        },
        4 => {
            let states = [PermissionState::Allow, PermissionState::Allow, PermissionState::Deny, PermissionState::Deny, PermissionState::Deny];
            assert(states@ == seed_states(4));
            SeedRow { key: "roles.edit", category: PermissionCategory::Roles, label: "Create / edit role", states }
        },
        5 => {
            let states = [PermissionState::Allow, PermissionState::Scope, PermissionState::Scope, PermissionState::Deny, PermissionState::Deny];
            assert(states@ == seed_states(5));
            SeedRow { key: "roles.assign", category: PermissionCategory::Roles, label: "Assign role", states }
        },
        6 => {
            let states = [PermissionState::Allow, PermissionState::Deny, PermissionState::Deny, PermissionState::Deny, PermissionState::Deny];
            assert(states@ == seed_states(6));
            SeedRow { key: "roles.owner", category: PermissionCategory::Roles, label: "Grant Owner", states }
        },
        7 => {
            let states = [PermissionState::Allow, PermissionState::Allow, PermissionState::Allow, PermissionState::Deny, PermissionState::Deny];
            assert(states@ == seed_states(7));
            SeedRow { key: "roles.matrix", category: PermissionCategory::Roles, label: "View permission matrix", states }
        },
        8 => {
            let states = [PermissionState::Allow, PermissionState::Allow, PermissionState::Deny, PermissionState::Deny, PermissionState::Deny];
            assert(states@ == seed_states(8));
            SeedRow { key: "org.branding", category: PermissionCategory::Org, label: "Edit org profile / branding", states }
        },
        9 => {
            let states = [PermissionState::Allow, PermissionState::Allow, PermissionState::Deny, PermissionState::Deny, PermissionState::Deny];
            assert(states@ == seed_states(9));
            SeedRow { key: "org.auth", category: PermissionCategory::Org, label: "Configure auth (MFA, SSO, policy)", states }
        },
        10 => {
            let states = [PermissionState::Allow, PermissionState::Deny, PermissionState::Deny, PermissionState::Deny, PermissionState::Deny];
            assert(states@ == seed_states(10));
            SeedRow { key: "org.transfer", category: PermissionCategory::Org, label: "Transfer ownership", states }
        },
        11 => {
            let states = [PermissionState::Allow, PermissionState::Deny, PermissionState::Deny, PermissionState::Deny, PermissionState::Deny];
            assert(states@ == seed_states(11));
            SeedRow { key: "org.delete", category: PermissionCategory::Org, label: "Delete organization", states }
        },
        12 => {
            let states = [PermissionState::Allow, PermissionState::Allow, PermissionState::Scope, PermissionState::Deny, PermissionState::Deny];
            assert(states@ == seed_states(12));
            SeedRow { key: "audit.view", category: PermissionCategory::Audit, label: "View audit log", states }
        },
        13 => {
            let states = [PermissionState::Allow, PermissionState::Allow, PermissionState::Deny, PermissionState::Deny, PermissionState::Deny];
            assert(states@ == seed_states(13));
            SeedRow { key: "audit.export", category: PermissionCategory::Audit, label: "Export audit log", states }
        },
        14 => {
            let states = [PermissionState::Allow, PermissionState::Allow, PermissionState::Deny, PermissionState::Deny, PermissionState::Deny];
            assert(states@ == seed_states(14));
            SeedRow { key: "keys.manage", category: PermissionCategory::Keys, label: "Create / revoke key", states }
        },
        _ => {
            let states = [PermissionState::Allow, PermissionState::Allow, PermissionState::Deny, PermissionState::Deny, PermissionState::Deny];
            assert(states@ == seed_states(15));
            SeedRow { key: "keys.scope", category: PermissionCategory::Keys, label: "Scope key permissions", states }
        },
    }
}

/// The five column roles, most to least powerful.
fn column_roles() -> (r: [BuiltinRole; 5])
    ensures
        forall|j: int| 0 <= j < 5 ==> r@[j] == column_role(j),
{
    [BuiltinRole::Owner, BuiltinRole::Admin, BuiltinRole::Manager, BuiltinRole::Member, BuiltinRole::Viewer]
}

/// The action catalog as ordered groups (the matrix rows).
pub fn default_groups() -> (r: Vec<PermissionGroup>)
    ensures
        r@.len() == 5,
        forall|c: int|
            0 <= c < 5 ==> (#[trigger] r@[c]).category == category_order()[c]
                && r@[c].actions@.map_values(|a: Action| action_view(a)) == rows_in(
                category_order()[c],
                seed_row_count(),
            ),
{
    let order = [
        PermissionCategory::Users,
        PermissionCategory::Roles,
        PermissionCategory::Org,
        PermissionCategory::Audit,
        PermissionCategory::Keys,
    ];
    assert(order@ == category_order());
    let mut groups: Vec<PermissionGroup> = Vec::new();
    let mut c: usize = 0;
    while c < 5
        invariant
            0 <= c <= 5,
            order@ == category_order(),
            groups@.len() == c,
            forall|d: int|
                0 <= d < c ==> (#[trigger] groups@[d]).category == category_order()[d]
                    && groups@[d].actions@.map_values(|a: Action| action_view(a)) == rows_in(
                    category_order()[d],
                    seed_row_count(),
                ),
        decreases 5 - c,
    {
        let cat = order[c];
        let mut actions: Vec<Action> = Vec::new();
        let mut i: usize = 0;
        while i < 16
            invariant
                0 <= i <= 16,
                actions@.map_values(|a: Action| action_view(a)) == rows_in(cat, i as int),
            decreases 16 - i,
        {
            let row = seed_row(i);
            if row.category == cat {
                let a = Action { key: owned(row.key), category: row.category, label: owned(row.label) };
                let ghost before = actions@;
                actions.push(a);
                assert(actions@.map_values(|a: Action| action_view(a)) == before.map_values(
                    |a: Action| action_view(a),
                ).push(action_view(a)));
            }
            i = i + 1;
        }
        groups.push(PermissionGroup { category: cat, actions });
        c = c + 1;
    }
    groups
}

/// The default cell states as `(action_key, role_key, state)` triples: for
/// every catalogued action in order, one triple per column role.
pub fn default_cells() -> (r: Vec<(&'static str, &'static str, PermissionState)>)
    ensures
        r@.len() == 5 * seed_row_count(),
        forall|k: int|
            0 <= k < r@.len() ==> (#[trigger] r@[k]).0@ == seed_key(k / 5) && r@[k].1@ == builtin_key(
                column_role(k % 5),
            ) && r@[k].2 == seed_states(k / 5)[k % 5],
{
    let roles = column_roles();
    let mut cells: Vec<(&'static str, &'static str, PermissionState)> = Vec::new();
    let mut i: usize = 0;
    while i < 16
        invariant
            0 <= i <= 16,
            forall|j: int| 0 <= j < 5 ==> roles@[j] == column_role(j),
            cells@.len() == 5 * i,
            forall|k: int|
                0 <= k < cells@.len() ==> (#[trigger] cells@[k]).0@ == seed_key(k / 5) && cells@[k].1@
                    == builtin_key(column_role(k % 5)) && cells@[k].2 == seed_states(k / 5)[k % 5],
        decreases 16 - i,
    {
        let row = seed_row(i);
        let mut j: usize = 0;
        while j < 5
            invariant
                0 <= i < 16,
                0 <= j <= 5,
                forall|j: int| 0 <= j < 5 ==> roles@[j] == column_role(j),
                row.key@ == seed_key(i as int),
                row.states@ == seed_states(i as int),
                cells@.len() == 5 * i + j,
                forall|k: int|
                    0 <= k < cells@.len() ==> (#[trigger] cells@[k]).0@ == seed_key(k / 5)
                        && cells@[k].1@ == builtin_key(column_role(k % 5)) && cells@[k].2 == seed_states(
                        k / 5,
                    )[k % 5],
            decreases 5 - j,
        {
            let ghost k = 5 * i + j;
            assert(k / 5 == i as int && k % 5 == j as int) by (nonlinear_arith)
                requires
                    k == 5 * i + j,
                    0 <= j < 5,
            ;
            cells.push((row.key, roles[j].key(), row.states[j]));
            j = j + 1;
        }
        i = i + 1;
    }
    cells
}

/// The default cells for the five column roles whose ids are the first five
/// of `column_ids` (owner, admin, manager, member, viewer): for every
/// catalogued action in order, one cell per column role.
pub fn default_matrix_cells(column_ids: &[RoleId]) -> (r: Vec<MatrixCell>)
    requires
        column_ids@.len() >= 5,
    ensures
        r@.len() == 5 * seed_row_count(),
        forall|k: int|
            0 <= k < r@.len() ==> (#[trigger] r@[k]).action_key@ == seed_key(k / 5) && r@[k].role_id
                == column_ids@[k % 5] && r@[k].state == seed_states(k / 5)[k % 5],
        (forall|j: int| 1 <= j < 5 ==> #[trigger] column_ids@[j] != column_ids@[0]) ==> owner_column_allows(
            r@,
            column_ids@[0],
        ),
{
    let mut cells: Vec<MatrixCell> = Vec::new();
    let mut i: usize = 0;
    while i < 16
        invariant
            0 <= i <= 16,
            column_ids@.len() >= 5,
            cells@.len() == 5 * i,
            forall|k: int|
                0 <= k < cells@.len() ==> (#[trigger] cells@[k]).action_key@ == seed_key(k / 5)
                    && cells@[k].role_id == column_ids@[k % 5] && cells@[k].state == seed_states(k / 5)[k % 5],
        decreases 16 - i,
    {
        let row = seed_row(i);
        let mut j: usize = 0;
        while j < 5
            invariant
                0 <= i < 16,
                0 <= j <= 5,
                column_ids@.len() >= 5,
                row.key@ == seed_key(i as int),
                row.states@ == seed_states(i as int),
                cells@.len() == 5 * i + j,
                forall|k: int|
                    0 <= k < cells@.len() ==> (#[trigger] cells@[k]).action_key@ == seed_key(k / 5)
                        && cells@[k].role_id == column_ids@[k % 5] && cells@[k].state == seed_states(k / 5)[k
                        % 5],
            decreases 5 - j,
        {
            let ghost k = 5 * i + j;
            assert(k / 5 == i as int && k % 5 == j as int) by (nonlinear_arith)
                requires
                    k == 5 * i + j,
                    0 <= j < 5,
            ;
            cells.push(MatrixCell { action_key: owned(row.key), role_id: column_ids[j], state: row.states[j] });
            j = j + 1;
        }
        i = i + 1;
    }
    proof {
        if forall|j: int| 1 <= j < 5 ==> #[trigger] column_ids@[j] != column_ids@[0] {
            assert forall|k: int|
                0 <= k < cells@.len() && (#[trigger] cells@[k]).role_id == column_ids@[0] implies cells@[k].state
                == PermissionState::Allow by {
                assert(0 <= k % 5 < 5);
                assert(k % 5 == 0);
                assert(0 <= k / 5 < 16) by (nonlinear_arith)
                    requires
                        0 <= k < 80,
                ;
                lemma_owner_column_allows(k / 5);
            }
        }
    }
    cells
}

proof fn lemma_first_row_stable(key: Seq<char>, k: int, n: int)
    requires
        0 <= k <= n,
        first_row(key, k) is Some,
    ensures
        first_row(key, n) == first_row(key, k),
    decreases n - k,
{
    if n > k {
        lemma_first_row_stable(key, k, n - 1);
    }
}

proof fn lemma_first_row_bounds(key: Seq<char>, n: int)
    requires
        0 <= n,
        first_row(key, n) is Some,
    ensures
        0 <= first_row(key, n)->0 < n,
        seed_key(first_row(key, n)->0) == key,
    decreases n,
{
    if first_row(key, n - 1) is Some {
        lemma_first_row_bounds(key, n - 1);
    }
}

proof fn lemma_first_row_none(key: Seq<char>, n: int)
    requires
        0 <= n,
        forall|x: int| 0 <= x < n ==> seed_key(x) != key,
    ensures
        first_row(key, n) is None,
    decreases n,
{
    if n > 0 {
        lemma_first_row_none(key, n - 1);
    }
}

/// The default state of one `(action, role)` pair, if the action is
/// catalogued and the role is a matrix column.
pub fn default_state(action_key: &str, role: BuiltinRole) -> (r: Option<PermissionState>)
    ensures
        r == default_state_of(action_key@, role),
{
    let idx: usize = match role {
        BuiltinRole::Owner => 0,
        BuiltinRole::Admin => 1,
        BuiltinRole::Manager => 2,
        BuiltinRole::Member => 3,
        BuiltinRole::Viewer => 4,
        _ => return None,
    };
    let mut i: usize = 0;
    while i < 16
        invariant
            0 <= i <= 16,
            column_index(role) == Some(idx as int),
            first_row(action_key@, i as int) is None,
        decreases 16 - i,
    {
        let row = seed_row(i);
        if str_eq(row.key, action_key) {
            assert(first_row(action_key@, i + 1) == Some(i as int));
            proof {
                lemma_first_row_stable(action_key@, i + 1, 16);
            }
            return Some(row.states[idx]);
        }
        i = i + 1;
    }
    None
}

/// The default branding accent colour.
pub fn default_branding_accent() -> (r: &'static str)
    ensures
        r@ == "#D6B982"@,
{
    "#D6B982"
}

proof fn lemma_owner_column_allows(x: int)
    requires
        0 <= x < 16,
    ensures
        seed_states(x)[0] == PermissionState::Allow,
        seed_states(x).len() == 5,
{
}

/// Every catalogued action defaults to Allow for the Owner.
pub proof fn owner_allows_every_catalogued_action(i: int)
    requires
        0 <= i < seed_row_count(),
    ensures
        default_state_of(seed_key(i), BuiltinRole::Owner) == Some(PermissionState::Allow),
{
    lemma_first_row_none(seed_key(i), 0);
    if first_row(seed_key(i), i) is None {
        assert(first_row(seed_key(i), i + 1) == Some(i));
        lemma_first_row_stable(seed_key(i), i + 1, 16);
    } else {
        lemma_first_row_stable(seed_key(i), i, 16);
    }
    lemma_first_row_bounds(seed_key(i), 16);
    lemma_owner_column_allows(first_row(seed_key(i), 16)->0);
}

/// The default matrix respects the locks: wherever a cell is locked, its
/// default is the locked value (Allow in the Owner column, Deny elsewhere).
pub proof fn seed_respects_locks(i: int, j: int)
    requires
        0 <= i < seed_row_count(),
        0 <= j < 5,
    ensures
        lock_reason_of(seed_key(i), builtin_key(column_role(j))) is Some ==> seed_states(i)[j] == (if j == 0 {
            PermissionState::Allow
        } else {
            PermissionState::Deny
        }),
{
    reveal_strlit("owner");
    reveal_strlit("admin");
    reveal_strlit("manager");
    reveal_strlit("member");
    reveal_strlit("viewer");
    reveal_strlit("roles.owner");
    reveal_strlit("org.transfer");
    reveal_strlit("org.delete");
    reveal_strlit("users.invite");
    reveal_strlit("users.view");
    reveal_strlit("users.edit");
    reveal_strlit("users.deactivate");
    reveal_strlit("roles.edit");
    reveal_strlit("roles.assign");
    reveal_strlit("roles.matrix");
    reveal_strlit("org.branding");
    reveal_strlit("org.auth");
    reveal_strlit("audit.view");
    reveal_strlit("audit.export");
    reveal_strlit("keys.manage");
    reveal_strlit("keys.scope");
    if j != 0 {
        assert(builtin_key(column_role(j)) != "owner"@) by {
            if j == 1 {
                assert("admin"@[0] != "owner"@[0]);
            }
            if j == 2 {
                assert("manager"@.len() != "owner"@.len());
            }
            if j == 3 {
                assert("member"@.len() != "owner"@.len());
            }
            if j == 4 {
                assert("viewer"@.len() != "owner"@.len());
            }
        }
        if i == 0 {
            assert("users.invite"@.len() != "roles.owner"@.len());
            assert("users.invite"@[0] != "org.transfer"@[0]);
            assert("users.invite"@.len() != "org.delete"@.len());
        }
        if i == 1 {
            assert("users.view"@.len() != "roles.owner"@.len());
            assert("users.view"@.len() != "org.transfer"@.len());
            assert("users.view"@[0] != "org.delete"@[0]);
        }
        if i == 2 {
            assert("users.edit"@.len() != "roles.owner"@.len());
            assert("users.edit"@.len() != "org.transfer"@.len());
            assert("users.edit"@[0] != "org.delete"@[0]);
        }
        if i == 3 {
            assert("users.deactivate"@.len() != "roles.owner"@.len());
            assert("users.deactivate"@.len() != "org.transfer"@.len());
            assert("users.deactivate"@.len() != "org.delete"@.len());
        }
        if i == 4 {
            assert("roles.edit"@.len() != "roles.owner"@.len());
            assert("roles.edit"@.len() != "org.transfer"@.len());
            assert("roles.edit"@[0] != "org.delete"@[0]);
        }
        if i == 5 {
            assert("roles.assign"@.len() != "roles.owner"@.len());
            assert("roles.assign"@[0] != "org.transfer"@[0]);
            assert("roles.assign"@.len() != "org.delete"@.len());
        }
        if i == 7 {
            assert("roles.matrix"@.len() != "roles.owner"@.len());
            assert("roles.matrix"@[0] != "org.transfer"@[0]);
            assert("roles.matrix"@.len() != "org.delete"@.len());
        }
        if i == 8 {
            assert("org.branding"@.len() != "roles.owner"@.len());
            assert("org.branding"@[4] != "org.transfer"@[4]);
            assert("org.branding"@.len() != "org.delete"@.len());
        }
        if i == 9 {
            assert("org.auth"@.len() != "roles.owner"@.len());
            assert("org.auth"@.len() != "org.transfer"@.len());
            assert("org.auth"@.len() != "org.delete"@.len());
        }
        if i == 12 {
            assert("audit.view"@.len() != "roles.owner"@.len());
            assert("audit.view"@.len() != "org.transfer"@.len());
            assert("audit.view"@[0] != "org.delete"@[0]);
        }
        if i == 13 {
            assert("audit.export"@.len() != "roles.owner"@.len());
            assert("audit.export"@[0] != "org.transfer"@[0]);
            assert("audit.export"@.len() != "org.delete"@.len());
        }
        if i == 14 {
            assert("keys.manage"@[0] != "roles.owner"@[0]);
            assert("keys.manage"@.len() != "org.transfer"@.len());
            assert("keys.manage"@.len() != "org.delete"@.len());
        }
        if i == 15 {
            assert("keys.scope"@.len() != "roles.owner"@.len());
            assert("keys.scope"@.len() != "org.transfer"@.len());
            assert("keys.scope"@[0] != "org.delete"@[0]);
        }
    }
}

/// Owner-only actions default to Deny for every non-owner column role.
pub proof fn owner_only_actions_default_deny(key: Seq<char>, j: int)
    requires
        owner_only(key),
        1 <= j < 5,
    ensures
        default_state_of(key, column_role(j)) == Some(PermissionState::Deny),
{
    reveal_strlit("users.invite");
    reveal_strlit("users.view");
    reveal_strlit("users.edit");
    reveal_strlit("users.deactivate");
    reveal_strlit("roles.edit");
    reveal_strlit("roles.assign");
    reveal_strlit("roles.owner");
    reveal_strlit("roles.matrix");
    reveal_strlit("org.branding");
    reveal_strlit("org.auth");
    reveal_strlit("org.transfer");
    reveal_strlit("org.delete");
    reveal_strlit("audit.view");
    reveal_strlit("audit.export");
    reveal_strlit("keys.manage");
    reveal_strlit("keys.scope");
    if key == "roles.owner"@ {
        reveal_strlit("roles.owner");
        assert forall|x: int| 0 <= x < 6 implies seed_key(x) != key by {
            if x == 0 {
                assert("users.invite"@.len() != "roles.owner"@.len());
            }
            if x == 1 {
                assert("users.view"@.len() != "roles.owner"@.len());
            }
            if x == 2 {
                assert("users.edit"@.len() != "roles.owner"@.len());
            }
            if x == 3 {
                assert("users.deactivate"@.len() != "roles.owner"@.len());
            }
            if x == 4 {
                assert("roles.edit"@.len() != "roles.owner"@.len());
            }
            if x == 5 {
                assert("roles.assign"@.len() != "roles.owner"@.len());
            }
        }
        lemma_first_row_none(key, 6);
        assert(first_row(key, 7) == Some(6int));
        lemma_first_row_stable(key, 7, 16);
    }
    if key == "org.transfer"@ {
        reveal_strlit("org.transfer");
        assert forall|x: int| 0 <= x < 10 implies seed_key(x) != key by {
            if x == 0 {
                assert("users.invite"@[0] != "org.transfer"@[0]);
            }
            if x == 1 {
                assert("users.view"@.len() != "org.transfer"@.len());
            }
            if x == 2 {
                assert("users.edit"@.len() != "org.transfer"@.len());
            }
            if x == 3 {
                assert("users.deactivate"@.len() != "org.transfer"@.len());
            }
            if x == 4 {
                assert("roles.edit"@.len() != "org.transfer"@.len());
            }
            if x == 5 {
                assert("roles.assign"@[0] != "org.transfer"@[0]);
            }
            if x == 6 {
                assert("roles.owner"@.len() != "org.transfer"@.len());
            }
            if x == 7 {
                assert("roles.matrix"@[0] != "org.transfer"@[0]);
            }
            if x == 8 {
                assert("org.branding"@[4] != "org.transfer"@[4]);
            }
            if x == 9 {
                assert("org.auth"@.len() != "org.transfer"@.len());
            }
        }
        lemma_first_row_none(key, 10);
        assert(first_row(key, 11) == Some(10int));
        lemma_first_row_stable(key, 11, 16);
    }
    if key == "org.delete"@ {
        reveal_strlit("org.delete");
        assert forall|x: int| 0 <= x < 11 implies seed_key(x) != key by {
            if x == 0 {
                assert("users.invite"@.len() != "org.delete"@.len());
            }
            if x == 1 {
                assert("users.view"@[0] != "org.delete"@[0]);
            }
            if x == 2 {
                assert("users.edit"@[0] != "org.delete"@[0]);
            }
            if x == 3 {
                assert("users.deactivate"@.len() != "org.delete"@.len());
            }
            if x == 4 {
                assert("roles.edit"@[0] != "org.delete"@[0]);
            }
            if x == 5 {
                assert("roles.assign"@.len() != "org.delete"@.len());
            }
            if x == 6 {
                assert("roles.owner"@.len() != "org.delete"@.len());
            }
            if x == 7 {
                assert("roles.matrix"@.len() != "org.delete"@.len());
            }
            if x == 8 {
                assert("org.branding"@.len() != "org.delete"@.len());
            }
            if x == 9 {
                assert("org.auth"@.len() != "org.delete"@.len());
            }
            if x == 10 {
                assert("org.transfer"@.len() != "org.delete"@.len());
            }
        }
        lemma_first_row_none(key, 11);
        assert(first_row(key, 12) == Some(11int));
        lemma_first_row_stable(key, 12, 16);
    }
}

/// The shape of every catalogued row: five states that never grow more
/// permissive from the Owner column down to the Viewer column, the Member and
/// Viewer columns alike, and never Allow for the Viewer.
proof fn lemma_row_shape(i: int)
    requires
        0 <= i < seed_row_count(),
    ensures
        seed_states(i).len() == 5,
        forall|j: int, k: int|
            0 <= j <= k < 5 ==> permissiveness(#[trigger] seed_states(i)[k]) <= permissiveness(
                #[trigger] seed_states(i)[j],
            ),
        seed_states(i)[4] == seed_states(i)[3],
        seed_states(i)[4] != PermissionState::Allow,
        seed_states(i)[4] == PermissionState::Deny || i == 2,
{
    if i == 0 {
        assert(seed_states(0).len() == 5);
    } else if i == 1 {
        assert(seed_states(1).len() == 5);
    } else if i == 2 {
        assert(seed_states(2).len() == 5);
    } else if i == 3 {
        assert(seed_states(3).len() == 5);
    } else if i == 4 {
        assert(seed_states(4).len() == 5);
    } else if i == 5 {
        assert(seed_states(5).len() == 5);
    } else if i == 6 {
        assert(seed_states(6).len() == 5);
    } else if i == 7 {
        assert(seed_states(7).len() == 5);
    } else if i == 8 {
        assert(seed_states(8).len() == 5);
    } else if i == 9 {
        assert(seed_states(9).len() == 5);
    } else if i == 10 {
        assert(seed_states(10).len() == 5);
    } else if i == 11 {
        assert(seed_states(11).len() == 5);
    } else if i == 12 {
        assert(seed_states(12).len() == 5);
    } else if i == 13 {
        assert(seed_states(13).len() == 5);
    } else if i == 14 {
        assert(seed_states(14).len() == 5);
    } else if i == 15 {
        assert(seed_states(15).len() == 5);
    }
}

/// Where a catalogued key's defaults come from: its first row.
proof fn lemma_default_row(key: Seq<char>)
    ensures
        first_row(key, seed_row_count()) matches Some(i) ==> 0 <= i < seed_row_count() && seed_key(i) == key,
{
    if first_row(key, seed_row_count()) is Some {
        lemma_first_row_bounds(key, seed_row_count());
    }
}

/// A more senior column role never defaults to less than a junior one: for
/// every action, the default of a role ranked at or above another is at least
/// as permissive (Deny < Scope < Allow), and both are catalogued or neither.
pub proof fn senior_roles_default_at_least_as_permitted(key: Seq<char>, senior: BuiltinRole, junior: BuiltinRole)
    requires
        column_index(senior) is Some,
        column_index(junior) is Some,
        builtin_rank(senior) >= builtin_rank(junior),
    ensures
        default_state_of(key, senior) is Some <==> default_state_of(key, junior) is Some,
        default_state_of(key, senior) matches Some(a) ==> (default_state_of(key, junior) matches Some(b)
            && permissiveness(b) <= permissiveness(a)),
{
    lemma_default_row(key);
    if let Some(i) = first_row(key, seed_row_count()) {
        lemma_row_shape(i);
        let j = column_index(senior)->0;
        let k = column_index(junior)->0;
        assert(0 <= j <= k < 5);
        assert(permissiveness(seed_states(i)[k]) <= permissiveness(seed_states(i)[j]));
    }
}

/// A Viewer is never allowed anything by default and defaults exactly as a
/// Member does; the only action not denied to it is editing user profiles
/// (`users.edit`), which it may do on its own profile (Scope).
pub proof fn viewer_defaults_are_read_only(key: Seq<char>)
    ensures
        default_state_of(key, BuiltinRole::Viewer) == default_state_of(key, BuiltinRole::Member),
        default_state_of(key, BuiltinRole::Viewer) != Some(PermissionState::Allow),
        default_state_of(key, BuiltinRole::Viewer) is Some ==> (default_state_of(key, BuiltinRole::Viewer) == Some(
            PermissionState::Deny,
        ) || key == "users.edit"@),
{
    lemma_default_row(key);
    if let Some(i) = first_row(key, seed_row_count()) {
        lemma_row_shape(i);
    }
}

} // verus!
