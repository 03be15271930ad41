//! The central authorization decision, `can(actor, action)`, deny by default.
//! Pure: it reads an already-loaded permission matrix.

use crate::entities::permission::{effective_state_of, first_cell, inherited_upto, inherits_from, permissiveness, rank_among, rank_of_role, raw_state_of, MatrixCell, PermissionMatrix, PermissionState};
use crate::ids::{RoleId, UserId};
use vstd::prelude::*;

verus! {

/// The outcome of an authorization check.
#[derive(Debug, Clone, Copy, PartialEq, Eq, Structural)]
pub enum Decision {
    Allow,
    Deny,
}

impl Decision {
    pub fn is_allowed(self) -> (r: bool)
        ensures
            r == (self == Decision::Allow),
    {
        match self {
            Decision::Allow => true,
            Decision::Deny => false,
        }
    }
}

/// Everything `can` needs to decide.
pub struct AuthzInput<'a> {
    /// The acting principal's primary role.
    pub actor_role: RoleId,
    /// The organization's permission matrix.
    pub matrix: &'a PermissionMatrix,
    /// The acting principal's user id (for `Scope`, self-owned decisions).
    pub actor_id: UserId,
    /// The owner of the resource acted on, when relevant. `None` for
    /// collection-level actions, where `Scope` resolves to deny.
    pub resource_owner: Option<UserId>,
}

/// The decision for an effective state: `Allow` allows, `Scope` allows only
/// on the actor's own resource, and `Deny` or no state denies.
pub open spec fn decide(state: Option<PermissionState>, actor: UserId, owner: Option<UserId>) -> Decision {
    match state {
        Some(PermissionState::Allow) => Decision::Allow,
        Some(PermissionState::Scope) => if owner == Some(actor) {
            Decision::Allow
        } else {
            Decision::Deny
        },
        _ => Decision::Deny,
    }
}

/// The decision of `can` for a role, actor and resource owner.
pub open spec fn can_of(
    m: &PermissionMatrix,
    role: RoleId,
    actor: UserId,
    owner: Option<UserId>,
    action: Seq<char>,
) -> Decision {
    decide(effective_state_of(m.roles@, m.cells@, action, role), actor, owner)
}

/// Decide whether the actor may perform `action`: unknown action or no cell
/// denies; `Allow` allows; `Deny` denies; `Scope` allows only when acting on
/// the actor's own resource. Inheritance is applied through the matrix's
/// effective state.
pub fn can(input: &AuthzInput, action: &str) -> (d: Decision)
    ensures
        d == can_of(input.matrix, input.actor_role, input.actor_id, input.resource_owner, action@),
{
    match input.matrix.effective_state(action, input.actor_role) {
        Some(PermissionState::Allow) => Decision::Allow,
        Some(PermissionState::Scope) => {
            match input.resource_owner {
                Some(owner) => if owner == input.actor_id {
                    Decision::Allow
                } else {
                    Decision::Deny
                },
                None => Decision::Deny,
            }
        },
        _ => Decision::Deny,
    }
}

/// How permissive an optional state is; no state is below `Deny`.
pub open spec fn level(s: Option<PermissionState>) -> int {
    match s {
        Some(x) => permissiveness(x),
        None => -1,
    }
}

proof fn lemma_no_cell_for_key(cells: Seq<MatrixCell>, key: Seq<char>, role: RoleId, n: int)
    requires
        0 <= n <= cells.len(),
        forall|i: int| 0 <= i < cells.len() ==> cells[i].action_key@ != key,
    ensures
        first_cell(cells, key, role, n) is None,
    decreases n,
{
    if n > 0 {
        lemma_no_cell_for_key(cells, key, role, n - 1);
    }
}

proof fn lemma_nothing_inherited(
    roles: Seq<(RoleId, i16)>,
    cells: Seq<MatrixCell>,
    key: Seq<char>,
    role: RoleId,
    my_rank: i16,
    n: int,
)
    requires
        0 <= n <= roles.len(),
        forall|i: int| 0 <= i < cells.len() ==> cells[i].action_key@ != key,
    ensures
        inherited_upto(roles, cells, key, role, my_rank, n) is None,
    decreases n,
{
    if n > 0 {
        lemma_nothing_inherited(roles, cells, key, role, my_rank, n - 1);
        lemma_no_cell_for_key(cells, key, roles[n - 1].0, cells.len() as int);
    }
}

/// Deny by default: an action that no cell of the matrix mentions is denied
/// to every role, actor and resource.
pub proof fn unknown_action_is_denied(
    m: &PermissionMatrix,
    role: RoleId,
    actor: UserId,
    owner: Option<UserId>,
    action: Seq<char>,
)
    requires
        forall|i: int| 0 <= i < m.cells@.len() ==> m.cells@[i].action_key@ != action,
    ensures
        can_of(m, role, actor, owner, action) == Decision::Deny,
{
    match rank_of_role(m.roles@, role) {
        Some(r) => lemma_nothing_inherited(m.roles@, m.cells@, action, role, r, m.roles@.len() as int),
        None => {},
    }
}

/// Every entry that counts bounds the inherited state from below.
proof fn lemma_inherited_bounds(
    roles: Seq<(RoleId, i16)>,
    cells: Seq<MatrixCell>,
    key: Seq<char>,
    role: RoleId,
    my_rank: i16,
    j: int,
    n: int,
)
    requires
        0 <= j < n <= roles.len(),
        inherits_from(roles[j], role, my_rank),
        raw_state_of(cells, key, roles[j].0) is Some,
    ensures
        level(inherited_upto(roles, cells, key, role, my_rank, n)) >= permissiveness(
            raw_state_of(cells, key, roles[j].0)->0,
        ),
    decreases n,
{
    if j < n - 1 {
        lemma_inherited_bounds(roles, cells, key, role, my_rank, j, n - 1);
    }
}

/// The inherited state, when there is one, is as permissive as the state of
/// some entry that counts.
proof fn lemma_inherited_witness(
    roles: Seq<(RoleId, i16)>,
    cells: Seq<MatrixCell>,
    key: Seq<char>,
    role: RoleId,
    my_rank: i16,
    n: int,
) -> (j: int)
    requires
        0 <= n <= roles.len(),
        inherited_upto(roles, cells, key, role, my_rank, n) is Some,
    ensures
        0 <= j < n,
        inherits_from(roles[j], role, my_rank),
        raw_state_of(cells, key, roles[j].0) is Some,
        permissiveness(raw_state_of(cells, key, roles[j].0)->0) == level(
            inherited_upto(roles, cells, key, role, my_rank, n),
        ),
    decreases n,
{
    let prev = inherited_upto(roles, cells, key, role, my_rank, n - 1);
    if inherits_from(roles[n - 1], role, my_rank) && raw_state_of(cells, key, roles[n - 1].0) is Some {
        let t = raw_state_of(cells, key, roles[n - 1].0)->0;
        if prev is Some && permissiveness(prev->0) >= permissiveness(t) {
            lemma_inherited_witness(roles, cells, key, role, my_rank, n - 1)
        } else {
            n - 1
        }
    } else {
        lemma_inherited_witness(roles, cells, key, role, my_rank, n - 1)
    }
}

proof fn lemma_rank_among_index(roles: Seq<(RoleId, i16)>, role: RoleId, n: int) -> (i: int)
    requires
        0 <= n <= roles.len(),
        rank_among(roles, role, n) is Some,
    ensures
        0 <= i < n,
        roles[i].0 == role,
        roles[i].1 == rank_among(roles, role, n)->0,
    decreases n,
{
    if rank_among(roles, role, n - 1) is Some {
        lemma_rank_among_index(roles, role, n - 1)
    } else {
        n - 1
    }
}

/// Downward inheritance: a column role ranked strictly above another is at
/// least as permitted as it for every action.
pub proof fn higher_rank_is_at_least_as_permitted(
    m: &PermissionMatrix,
    higher: RoleId,
    lower: RoleId,
    action: Seq<char>,
)
    requires
        rank_of_role(m.roles@, higher) is Some,
        rank_of_role(m.roles@, lower) is Some,
        rank_of_role(m.roles@, lower)->0 < rank_of_role(m.roles@, higher)->0,
    ensures
        level(effective_state_of(m.roles@, m.cells@, action, higher)) >= level(
            effective_state_of(m.roles@, m.cells@, action, lower),
        ),
{
    let roles = m.roles@;
    let cells = m.cells@;
    let hi = rank_of_role(roles, higher)->0;
    let lo = rank_of_role(roles, lower)->0;
    let n = roles.len() as int;
    if inherited_upto(roles, cells, action, lower, lo, n) is Some {
        let j = lemma_inherited_witness(roles, cells, action, lower, lo, n);
        if roles[j].0 == lower {
            let k = lemma_rank_among_index(roles, lower, n);
            lemma_inherited_bounds(roles, cells, action, higher, hi, k, n);
        } else {
            lemma_inherited_bounds(roles, cells, action, higher, hi, j, n);
        }
    }
}

/// Downward inheritance, as decided: whatever `can` allows a column role, it
/// allows every column role ranked strictly above it, for the same actor and
/// resource.
pub proof fn higher_rank_inherits_allow(
    m: &PermissionMatrix,
    higher: RoleId,
    lower: RoleId,
    actor: UserId,
    owner: Option<UserId>,
    action: Seq<char>,
)
    requires
        rank_of_role(m.roles@, higher) is Some,
        rank_of_role(m.roles@, lower) is Some,
        rank_of_role(m.roles@, lower)->0 < rank_of_role(m.roles@, higher)->0,
        can_of(m, lower, actor, owner, action) == Decision::Allow,
    ensures
        can_of(m, higher, actor, owner, action) == Decision::Allow,
{
    higher_rank_is_at_least_as_permitted(m, higher, lower, action);
}

/// A role's own cell counts: its effective state is at least as permissive as
/// its own stored state.
pub proof fn own_cell_is_inherited(m: &PermissionMatrix, role: RoleId, action: Seq<char>)
    requires
        rank_of_role(m.roles@, role) is Some,
        raw_state_of(m.cells@, action, role) is Some,
    ensures
        level(effective_state_of(m.roles@, m.cells@, action, role)) >= permissiveness(
            raw_state_of(m.cells@, action, role)->0,
        ),
{
    let roles = m.roles@;
    let my_rank = rank_of_role(roles, role)->0;
    let i = lemma_rank_among_index(roles, role, roles.len() as int);
    lemma_inherited_bounds(roles, m.cells@, action, role, my_rank, i, roles.len() as int);
}

/// Peers pass nothing on: every entry that shapes a role's effective state is
/// the role itself or ranked strictly below it, so a different role of equal
/// or higher rank never contributes.
pub proof fn only_lower_roles_are_inherited(m: &PermissionMatrix, role: RoleId, action: Seq<char>)
    requires
        effective_state_of(m.roles@, m.cells@, action, role) is Some,
    ensures
        exists|j: int|
            0 <= j < m.roles@.len() && (m.roles@[j].0 == role || m.roles@[j].1 < rank_of_role(m.roles@, role)->0)
                && raw_state_of(m.cells@, action, m.roles@[j].0) is Some && permissiveness(
                raw_state_of(m.cells@, action, m.roles@[j].0)->0,
            ) == level(effective_state_of(m.roles@, m.cells@, action, role)),
{
    let roles = m.roles@;
    let my_rank = rank_of_role(roles, role)->0;
    let j = lemma_inherited_witness(roles, m.cells@, action, role, my_rank, roles.len() as int);
    assert(m.roles@[j].0 == role || m.roles@[j].1 < rank_of_role(m.roles@, role)->0);
}

/// The strict check implies the capability check: an action allowed on some
/// resource is allowed on the actor's own resource.
pub proof fn allowed_anywhere_is_allowed_on_own(
    m: &PermissionMatrix,
    role: RoleId,
    actor: UserId,
    owner: Option<UserId>,
    action: Seq<char>,
)
    requires
        can_of(m, role, actor, owner, action) == Decision::Allow,
    ensures
        can_of(m, role, actor, Some(actor), action) == Decision::Allow,
{
}

/// On anything but the actor's own resource (another user's, or a
/// collection-level request) only `Allow` allows: a scoped permission never
/// reaches beyond the actor's own resources.
pub proof fn scope_needs_own_resource(
    m: &PermissionMatrix,
    role: RoleId,
    actor: UserId,
    owner: Option<UserId>,
    action: Seq<char>,
)
    requires
        owner != Some(actor),
    ensures
        can_of(m, role, actor, owner, action) == Decision::Allow
            <==> effective_state_of(m.roles@, m.cells@, action, role) == Some(PermissionState::Allow),
{
}

} // verus!
