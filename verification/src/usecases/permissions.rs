//! The permission matrix use case: cycling a cell's state, the centerpiece
//! interaction. Every edit is audited.

use crate::entities::permission::{first_cell, flatten_actions, state_label, Action, MatrixCell, PermissionCategory, PermissionMatrix, PermissionState};
use crate::entities::role::Role;
use crate::ids::RoleId;
use crate::services::matrix_rules::{apply_click, click_cells, lock_reason_of, missing_cell_message, next_state};
use crate::error::DomainError;
use crate::text::{owned, str_eq};
use crate::usecases::audit::{draft, has_text, AuditDraft};
use crate::usecases::error::AppError;
use vstd::prelude::*;

verus! {

/// The label of the first action with key `key`, or the key itself.
pub open spec fn action_label_of(actions: Seq<Action>, key: Seq<char>) -> Seq<char>
    decreases actions.len(),
{
    if actions.len() == 0 {
        key
    } else if actions[0].key@ == key {
        actions[0].label@
    } else {
        action_label_of(actions.drop_first(), key)
    }
}

/// The label of the matrix action with key `action_key`, or the key.
pub fn action_label(matrix: &PermissionMatrix, action_key: &str) -> (r: String)
    ensures
        r@ == action_label_of(flatten_actions(matrix.groups@), action_key@),
{
    let actions = matrix.actions();
    let n = actions.len();
    let mut i: usize = 0;
    assert(actions@.skip(0) == actions@);
    while i < n
        invariant
            n == actions@.len(),
            actions@ == flatten_actions(matrix.groups@),
            0 <= i <= n,
            action_label_of(actions@, action_key@) == action_label_of(actions@.skip(i as int), action_key@),
        decreases n - i,
    {
        assert(actions@.skip(i as int).drop_first() == actions@.skip(i + 1));
        assert(actions@.skip(i as int)[0] == actions@[i as int]);
        if str_eq(actions[i].key.as_str(), action_key) {
            assert(actions@.skip(i as int).len() > 0);
            assert(actions@[i as int].key@ == action_key@);
            assert(action_label_of(actions@.skip(i as int), action_key@) == actions@[i as int].label@);
            return actions[i].label.clone();
        }
        i = i + 1;
    }
    assert(actions@.skip(n as int).len() == 0);
    owned(action_key)
}

/// Cycle the `(action_key, role_id)` cell of `matrix` (Allow → Scope → Deny
/// → Allow) for `role`. Locked and missing cells are refused and leave the
/// matrix unchanged; otherwise the new cell and the `permission.edit` draft,
/// with the stored state before the edit (Deny when there was none) and after
/// it as labels.
pub fn plan_cycle_cell(
    matrix: &mut PermissionMatrix,
    action_key: &str,
    role_id: RoleId,
    role: &Role,
) -> (r: Result<(MatrixCell, AuditDraft), AppError>)
    ensures
        final(matrix).groups == old(matrix).groups,
        final(matrix).roles == old(matrix).roles,
        lock_reason_of(action_key@, role.key@) matches Some(reason) ==> {
            &&& r matches Err(AppError::Domain(DomainError::CellLocked(m))) && m@ == reason
            &&& final(matrix).cells@ == old(matrix).cells@
        },
        lock_reason_of(action_key@, role.key@) is None ==> match first_cell(
            old(matrix).cells@,
            action_key@,
            role_id,
            old(matrix).cells@.len() as int,
        ) {
            None => {
                &&& r matches Err(AppError::Domain(DomainError::NotFound(m))) && m@ == missing_cell_message(
                    action_key@,
                    role_id,
                )
                &&& final(matrix).cells@ == old(matrix).cells@
            },
            Some(i) => {
                &&& r matches Ok((c, d)) && c == final(matrix).cells@[i]
                    && c.state == next_state(old(matrix).cells@[i].state)
                    && d.action@ == "permission.edit"@
                    && d.category == PermissionCategory::Roles
                    && has_text(d.target, role.name@ + " · "@ + action_label_of(
                    flatten_actions(old(matrix).groups@),
                    action_key@,
                )) && has_text(d.before, state_label(old(matrix).cells@[i].state))
                    && has_text(d.after, state_label(c.state))
                &&& final(matrix).cells@ == old(matrix).cells@.update(i, final(matrix).cells@[i])
            },
        },
        final(matrix).cells@ == click_cells(old(matrix).cells@, action_key@, role_id, role.key@),
{
    let before = match matrix.raw_state(action_key, role_id) {
        Some(s) => s,
        None => PermissionState::Deny,
    };
    let cell = match apply_click(matrix, action_key, role_id, role.key.as_str()) {
        Ok(c) => c,
        Err(e) => return Err(AppError::Domain(e)),
    };
    let label = action_label(matrix, action_key);
    let mut target = role.name.clone();
    target.append(" · ");
    target.append(label.as_str());
    let d = draft(
        "permission.edit",
        PermissionCategory::Roles,
        target,
        owned(before.label()),
        owned(cell.state.label()),
    );
    Ok((cell, d))
}

} // verus!
