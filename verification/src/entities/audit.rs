//! Append-only audit events: actor, action, target, before/after, time, IP.

use crate::entities::permission::PermissionCategory;
use crate::entities::Timestamp;
use crate::ids::{AuditEventId, OrgId, UserId};
use vstd::prelude::*;

verus! {

#[derive(Debug)]
pub struct AuditEvent {
    pub id: AuditEventId,
    pub org_id: OrgId,
    pub ts: Timestamp,
    pub actor_id: UserId,
    pub actor_name: String,
    /// The actor's role key at the time of the action.
    pub actor_role_key: String,
    /// Dotted action name, e.g. `permission.edit`, `user.invite`.
    pub action: String,
    pub category: PermissionCategory,
    pub target: Option<String>,
    pub before: Option<String>,
    pub after: Option<String>,
    pub ip: Option<String>,
}

} // verus!
