//! The acting principal's context, resolved once per request from the
//! session. It carries the matrix so authorization is a pure check.

use crate::entities::permission::{effective_state_of, PermissionMatrix, PermissionState};
use crate::entities::role::Role;
use crate::entities::user::User;
use crate::error::DomainError;
use crate::ids::UserId;
use crate::services::authz::{can, can_of, AuthzInput, Decision};
use crate::text::owned;
use crate::usecases::error::AppError;
use vstd::prelude::*;

verus! {

#[derive(Debug)]
pub struct ActorContext {
    pub actor: User,
    pub actor_role: Role,
    /// The organization's permission matrix, loaded at authentication time.
    pub matrix: PermissionMatrix,
    /// Client IP for audit records.
    pub ip: Option<String>,
}

/// The message of a refused action.
pub open spec fn forbidden_message(role_key: Seq<char>, action: Seq<char>) -> Seq<char> {
    "role '"@ + role_key + "' may not "@ + action
}

/// An authorization refusal: `Forbidden` with the refusal message.
pub open spec fn is_forbidden(r: Result<(), AppError>, role_key: Seq<char>, action: Seq<char>) -> bool {
    r matches Err(AppError::Domain(DomainError::Forbidden(m))) && m@ == forbidden_message(role_key, action)
}

impl ActorContext {
    /// Capability check: may the actor perform `action` at all? Evaluated as
    /// acting on the actor's own resource, so `Allow` and `Scope` both pass
    /// and only `Deny` or a missing cell is forbidden.
    pub fn require(&self, action: &str) -> (r: Result<(), AppError>)
        ensures
            r is Ok <==> can_of(&self.matrix, self.actor_role.id, self.actor.id, Some(self.actor.id), action@)
                == Decision::Allow,
            r is Ok <==> (effective_state_of(self.matrix.roles@, self.matrix.cells@, action@, self.actor_role.id) matches Some(s)
                && s != PermissionState::Deny),
            r is Err ==> is_forbidden(r, self.actor_role.key@, action@),
    {
        self.require_on(action, Some(self.actor.id))
    }

    /// Strict check: authorize `action` on a resource owned by
    /// `resource_owner`, so `Scope` allows only on the actor's own data.
    pub fn require_on(&self, action: &str, resource_owner: Option<UserId>) -> (r: Result<(), AppError>)
        ensures
            r is Ok <==> can_of(&self.matrix, self.actor_role.id, self.actor.id, resource_owner, action@)
                == Decision::Allow,
            r is Err ==> is_forbidden(r, self.actor_role.key@, action@),
    {
        let input = AuthzInput {
            actor_role: self.actor_role.id,
            matrix: &self.matrix,
            actor_id: self.actor.id,
            resource_owner,
        };
        if can(&input, action).is_allowed() {
            Ok(())
        } else {
            let mut m = owned("role '");
            m.append(self.actor_role.key.as_str());
            m.append("' may not ");
            m.append(action);
            Err(AppError::Domain(DomainError::Forbidden(m)))
        }
    }
}

} // verus!
