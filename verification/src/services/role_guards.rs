//! Guardrails around role changes: no privilege escalation, last-admin
//! protection, and custom-role cell copying.

use crate::entities::permission::MatrixCell;
use crate::entities::role::Role;
use crate::error::DomainError;
use crate::ids::RoleId;
use crate::text::{decimal_text, int_text, owned};
use vstd::prelude::*;

verus! {

/// The message of a refused escalation.
pub open spec fn escalation_message(actor: Role, target: Role) -> Seq<char> {
    "cannot assign '"@ + target.key@ + "' (rank "@ + decimal_text(target.rank as int)
        + ") — above your own role '"@ + actor.key@ + "' (rank "@ + decimal_text(actor.rank as int)
        + ")"@
}

/// A user may never be assigned a role ranked above the actor's own role.
/// Equal rank is permitted, so the Owner can assign anything.
pub fn check_no_privilege_escalation(actor: &Role, target_new: &Role) -> (r: Result<(), DomainError>)
    ensures
        r is Ok <==> target_new.rank <= actor.rank,
        r matches Err(e) ==> (e matches DomainError::PrivilegeEscalation(m) && m@ == escalation_message(
            *actor,
            *target_new,
        )),
{
    if target_new.rank > actor.rank {
        let mut m = owned("cannot assign '");
        m.append(target_new.key.as_str());
        m.append("' (rank ");
        let t = int_text(target_new.rank as i128);
        m.append(t.as_str());
        m.append(") — above your own role '");
        m.append(actor.key.as_str());
        m.append("' (rank ");
        let a = int_text(actor.rank as i128);
        m.append(a.as_str());
        m.append(")");
        Err(DomainError::PrivilegeEscalation(m))
    } else {
        Ok(())
    }
}

/// Last-admin protection: the final active Owner/Admin cannot be removed or
/// demoted. `removes_admin` says the pending change would drop an admin;
/// `active_admin_count` is the current number of active Owner and Admin users.
pub fn check_last_admin(active_admin_count: u64, removes_admin: bool) -> (r: Result<(), DomainError>)
    ensures
        r is Err <==> removes_admin && active_admin_count <= 1,
        r matches Err(e) ==> (e matches DomainError::LastAdminProtected(m)
            && m@ == "the organization must retain at least one active administrator"@),
{
    if removes_admin && active_admin_count <= 1 {
        Err(DomainError::LastAdminProtected(owned("the organization must retain at least one active administrator")))
    } else {
        Ok(())
    }
}

/// The cells of a new custom role: the base role's cells, in order, pointed
/// at `new_role`.
pub fn build_custom_role_cells(base_cells: &[MatrixCell], new_role: RoleId) -> (r: Vec<MatrixCell>)
    ensures
        r@.len() == base_cells@.len(),
        forall|i: int|
            0 <= i < r@.len() ==> {
                &&& (#[trigger] r@[i]).action_key == base_cells@[i].action_key
                &&& r@[i].role_id == new_role
                &&& r@[i].state == base_cells@[i].state
            },
{
    let mut out: Vec<MatrixCell> = Vec::new();
    let n = base_cells.len();
    let mut i: usize = 0;
    while i < n
        invariant
            n == base_cells@.len(),
            0 <= i <= n,
            out@.len() == i,
            forall|j: int|
                0 <= j < i ==> {
                    &&& (#[trigger] out@[j]).action_key == base_cells@[j].action_key
                    &&& out@[j].role_id == new_role
                    &&& out@[j].state == base_cells@[j].state
                },
        decreases n - i,
    {
        let c = &base_cells[i];
        out.push(MatrixCell { action_key: c.action_key.clone(), role_id: new_role, state: c.state });
        i = i + 1;
    }
    out
}

} // verus!
