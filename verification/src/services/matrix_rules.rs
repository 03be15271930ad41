//! Permission-matrix editing rules: how a cell cycles, and which cells are
//! locked by policy.

use crate::entities::permission::{first_cell, lemma_first_cell_bounds, lemma_first_cell_stable, MatrixCell, PermissionMatrix, PermissionState};
use crate::error::DomainError;
use crate::ids::{uuid_hyphenated, RoleId};
use crate::text::{owned, str_eq};
use vstd::prelude::*;

verus! {

/// Actions that only the Owner may ever hold: every non-owner cell is locked
/// at Deny, and the Owner cell is locked at Allow.
pub const OWNER_ONLY_ACTIONS: [&'static str; 3] = ["roles.owner", "org.transfer", "org.delete"];

/// Whether an action is owner-only.
pub open spec fn owner_only(action: Seq<char>) -> bool {
    action == "roles.owner"@ || action == "org.transfer"@ || action == "org.delete"@
}

/// The next state on a click: Allow → Scope → Deny → Allow.
pub open spec fn next_state(s: PermissionState) -> PermissionState {
    match s {
        PermissionState::Allow => PermissionState::Scope,
        PermissionState::Scope => PermissionState::Deny,
        PermissionState::Deny => PermissionState::Allow,
    }
}

/// The reason a cell is locked, or `None` when it is editable.
pub open spec fn lock_reason_of(action: Seq<char>, role_key: Seq<char>) -> Option<Seq<char>> {
    if role_key == "owner"@ {
        Some("Owner has full control by definition."@)
    } else if owner_only(action) {
        if action == "roles.owner"@ {
            Some("Only the Owner may grant ownership."@)
        } else {
            Some("Owner-only action."@)
        }
    } else {
        None
    }
}

/// The next state when a cell is clicked: Allow → Scope → Deny → Allow.
pub fn cycle(state: PermissionState) -> (r: PermissionState)
    ensures
        r == next_state(state),
{
    match state {
        PermissionState::Allow => PermissionState::Scope,
        PermissionState::Scope => PermissionState::Deny,
        PermissionState::Deny => PermissionState::Allow,
    }
}

/// Clicking always changes a cell, and three clicks bring it back.
pub proof fn cycle_has_period_three(s: PermissionState)
    ensures
        next_state(s) != s,
        next_state(next_state(s)) != s,
        next_state(next_state(next_state(s))) == s,
{
}

/// Whether the cell for `(action_key, role_key)` is locked.
pub fn is_locked(action_key: &str, role_key: &str) -> (r: bool)
    ensures
        r == (lock_reason_of(action_key@, role_key@) is Some),
{
    lock_reason(action_key, role_key).is_some()
}

/// The reason a cell is locked, or `None` if it is editable.
pub fn lock_reason(action_key: &str, role_key: &str) -> (r: Option<&'static str>)
    ensures
        r is Some <==> lock_reason_of(action_key@, role_key@) is Some,
        r matches Some(t) ==> lock_reason_of(action_key@, role_key@) == Some(t@),
{
    if str_eq(role_key, "owner") {
        return Some("Owner has full control by definition.");
    }
    let mut only = false;
    let mut i: usize = 0;
    while i < 3
        invariant
            0 <= i <= 3,
            OWNER_ONLY_ACTIONS@ == seq!["roles.owner", "org.transfer", "org.delete"],
            only == (exists|j: int| 0 <= j < i && OWNER_ONLY_ACTIONS@[j]@ == action_key@),
        decreases 3 - i,
    {
        if str_eq(OWNER_ONLY_ACTIONS[i], action_key) {
            only = true;
        }
        i = i + 1;
    }
    assert(only == owner_only(action_key@)) by {
        if owner_only(action_key@) {
            if action_key@ == "roles.owner"@ {
                assert(OWNER_ONLY_ACTIONS@[0]@ == action_key@);
            } else if action_key@ == "org.transfer"@ {
                assert(OWNER_ONLY_ACTIONS@[1]@ == action_key@);
            } else {
                assert(OWNER_ONLY_ACTIONS@[2]@ == action_key@);
            }
        }
    }
    if only {
        if str_eq(action_key, "roles.owner") {
            Some("Only the Owner may grant ownership.")
        } else {
            Some("Owner-only action.")
        }
    } else {
        None
    }
}

/// The message of the error for a missing cell.
pub open spec fn missing_cell_message(action: Seq<char>, role: RoleId) -> Seq<char> {
    "cell "@ + action + " for role "@ + uuid_hyphenated(role.0) + " not found"@
}

/// The cells after a click on `(action, role)` by a column whose key is
/// `role_key`: unchanged when the cell is locked or missing, otherwise the
/// first matching cell moved to its next state.
pub open spec fn click_cells(cells: Seq<MatrixCell>, action: Seq<char>, role: RoleId, role_key: Seq<char>) -> Seq<
    MatrixCell,
> {
    if lock_reason_of(action, role_key) is Some {
        cells
    } else {
        match first_cell(cells, action, role, cells.len() as int) {
            None => cells,
            Some(i) => cells.update(
                i,
                MatrixCell { action_key: cells[i].action_key, role_id: role, state: next_state(cells[i].state) },
            ),
        }
    }
}

/// Every cell in the owner's column is Allow.
pub open spec fn owner_column_allows(cells: Seq<MatrixCell>, owner: RoleId) -> bool {
    forall|k: int|
        0 <= k < cells.len() && (#[trigger] cells[k]).role_id == owner ==> cells[k].state == PermissionState::Allow
}

/// Clicks keep the owner's column at Allow: a click in the owner's column is
/// refused as locked, and any other click changes only a cell of another
/// role.
pub proof fn clicks_keep_owner_column(
    cells: Seq<MatrixCell>,
    action: Seq<char>,
    role: RoleId,
    role_key: Seq<char>,
    owner: RoleId,
)
    requires
        owner_column_allows(cells, owner),
        role == owner ==> role_key == "owner"@,
    ensures
        owner_column_allows(click_cells(cells, action, role, role_key), owner),
{
    if lock_reason_of(action, role_key) is None {
        match first_cell(cells, action, role, cells.len() as int) {
            None => {},
            Some(i) => {
                lemma_first_cell_bounds(cells, action, role, cells.len() as int);
                assert(role != owner);
            },
        }
    }
}

/// Apply a click to the matrix: cycle the first `(action_key, role)` cell in
/// place and return its new value. A locked cell is refused with
/// `CellLocked`, a missing one with `NotFound`; either way the matrix is left
/// unchanged.
pub fn apply_click(
    matrix: &mut PermissionMatrix,
    action_key: &str,
    role: RoleId,
    role_key: &str,
) -> (r: Result<MatrixCell, DomainError>)
    ensures
        final(matrix).groups == old(matrix).groups,
        final(matrix).roles == old(matrix).roles,
        lock_reason_of(action_key@, role_key@) matches Some(reason) ==> {
            &&& r matches Err(DomainError::CellLocked(m)) && m@ == reason
            &&& final(matrix).cells@ == old(matrix).cells@
        },
        lock_reason_of(action_key@, role_key@) is None ==> match first_cell(
            old(matrix).cells@,
            action_key@,
            role,
            old(matrix).cells@.len() as int,
        ) {
            None => {
                &&& r matches Err(DomainError::NotFound(m)) && m@ == missing_cell_message(action_key@, role)
                &&& final(matrix).cells@ == old(matrix).cells@
            },
            Some(i) => {
                &&& r matches Ok(c) && c == final(matrix).cells@[i]
                    && c.action_key == old(matrix).cells@[i].action_key
                    && c.role_id == role
                    && c.state == next_state(old(matrix).cells@[i].state)
                &&& final(matrix).cells@ == old(matrix).cells@.update(i, final(matrix).cells@[i])
            },
        },
        final(matrix).cells@ == click_cells(old(matrix).cells@, action_key@, role, role_key@),
{
    match lock_reason(action_key, role_key) {
        Some(reason) => {
            return Err(DomainError::CellLocked(owned(reason)));
        },
        None => {},
    }
    let n = matrix.cells.len();
    let mut i: usize = 0;
    while i < n
        invariant
            n == matrix.cells@.len(),
            0 <= i <= n,
            matrix.cells@ == old(matrix).cells@,
            matrix.groups == old(matrix).groups,
            matrix.roles == old(matrix).roles,
            lock_reason_of(action_key@, role_key@) is None,
            first_cell(matrix.cells@, action_key@, role, i as int) is None,
        decreases n - i,
    {
        if matrix.cells[i].role_id == role && str_eq(matrix.cells[i].action_key.as_str(), action_key) {
            assert(first_cell(matrix.cells@, action_key@, role, (i + 1) as int) == Some(i as int));
            proof {
                lemma_first_cell_stable(matrix.cells@, action_key@, role, i as int + 1, n as int);
            }
            let mut c = matrix.cells[i].clone();
            c.state = cycle(c.state);
            matrix.cells.set(i, c.clone());
            return Ok(c);
        }
        i = i + 1;
    }
    let mut msg = owned("cell ");
    msg.append(action_key);
    msg.append(" for role ");
    let id = role.text();
    msg.append(id.as_str());
    msg.append(" not found");
    Err(DomainError::NotFound(msg))
}

} // verus!
