//! Resolving the actor behind a session, as a state machine: each step takes
//! the outcome of the host's last action and says what to do next. A missing
//! or expired session, or an account that is gone or not active, answers
//! `Unauthorized`; an expired session is deleted first.

use crate::entities::permission::PermissionMatrix;
use crate::entities::role::Role;
use crate::entities::session::Session;
use crate::entities::user::{User, UserStatus};
use crate::entities::Timestamp;
use crate::error::{domain_error_of, DomainError, RepoError};
use crate::ids::{OrgId, RoleId, SessionId, UserId};
use crate::usecases::ctx::ActorContext;
use crate::usecases::error::AppError;
use vstd::prelude::*;

verus! {

/// Where a resolution stands. `ip` is the client address for audit records.
#[derive(Debug)]
pub enum ResolveState {
    /// Nothing done yet.
    Start { session_id: SessionId, ip: Option<String> },
    /// Waiting for the stored session.
    FindingSession { session_id: SessionId, ip: Option<String> },
    /// Waiting for the expired session's deletion.
    DeletingExpired,
    /// Waiting for the session's user.
    FindingUser { ip: Option<String> },
    /// Waiting for the user's role.
    FindingRole { user: User, ip: Option<String> },
    /// Waiting for the organization's permission matrix.
    LoadingMatrix { user: User, role: Role, ip: Option<String> },
    /// Answered.
    Finished,
}

/// What the host reports back.
#[derive(Debug)]
pub enum ResolveEvent {
    /// Start the resolution.
    Begin,
    /// The session lookup, and the time it was made.
    SessionFound { found: Result<Option<Session>, RepoError>, now: Timestamp },
    /// The expired session's deletion was attempted; its outcome is ignored.
    ExpiredDeleted,
    /// The user lookup.
    UserFound(Result<Option<User>, RepoError>),
    /// The role lookup.
    RoleFound(Result<Option<Role>, RepoError>),
    /// The matrix load.
    MatrixLoaded(Result<PermissionMatrix, RepoError>),
}

/// What the host is asked to do next.
#[derive(Debug)]
pub enum ResolveAction {
    /// Look the session up.
    FindSession(SessionId),
    /// Delete the (expired) session.
    DeleteSession(SessionId),
    /// Look the user up by id.
    FindUser(UserId),
    /// Look the role up by id.
    FindRole(RoleId),
    /// Load the organization's permission matrix.
    LoadMatrix(OrgId),
    /// The answer to the caller.
    Done(Result<ActorContext, AppError>),
}

/// The events each state waits for.
pub open spec fn resolve_expects(s: ResolveState, e: ResolveEvent) -> bool {
    match s {
        ResolveState::Start { .. } => e is Begin,
        ResolveState::FindingSession { .. } => e is SessionFound,
        ResolveState::DeletingExpired => e is ExpiredDeleted,
        ResolveState::FindingUser { .. } => e is UserFound,
        ResolveState::FindingRole { .. } => e is RoleFound,
        ResolveState::LoadingMatrix { .. } => e is MatrixLoaded,
        ResolveState::Finished => false,
    }
}

/// Answered `Unauthorized`.
pub open spec fn unauthenticated() -> (ResolveState, ResolveAction) {
    (ResolveState::Finished, ResolveAction::Done(Err(AppError::Unauthorized)))
}

/// Answered with the repository error.
pub open spec fn lookup_failed(err: RepoError) -> (ResolveState, ResolveAction) {
    (ResolveState::Finished, ResolveAction::Done(Err(AppError::Domain(domain_error_of(err)))))
}

/// One step of a resolution: the next state and action for an event.
pub open spec fn resolve_spec(s: ResolveState, e: ResolveEvent, r: (ResolveState, ResolveAction)) -> bool {
    match s {
        ResolveState::Start { session_id, ip } => r == (
            ResolveState::FindingSession { session_id, ip },
            ResolveAction::FindSession(session_id),
        ),
        ResolveState::FindingSession { session_id, ip } => match e {
            ResolveEvent::SessionFound { found: Err(err), .. } => r == lookup_failed(err),
            ResolveEvent::SessionFound { found: Ok(None), .. } => r == unauthenticated(),
            ResolveEvent::SessionFound { found: Ok(Some(session)), now } => if now >= session.expires_at {
                r == (ResolveState::DeletingExpired, ResolveAction::DeleteSession(session_id))
            } else {
                r == (ResolveState::FindingUser { ip }, ResolveAction::FindUser(session.user_id))
            },
            _ => false,
        },
        ResolveState::DeletingExpired => r == unauthenticated(),
        ResolveState::FindingUser { ip } => match e {
            ResolveEvent::UserFound(Err(err)) => r == lookup_failed(err),
            ResolveEvent::UserFound(Ok(Some(user))) => if user.status == UserStatus::Active {
                r == (ResolveState::FindingRole { user, ip }, ResolveAction::FindRole(user.role_id))
            } else {
                r == unauthenticated()
            },
            ResolveEvent::UserFound(Ok(None)) => r == unauthenticated(),
            _ => false,
        },
        ResolveState::FindingRole { user, ip } => match e {
            ResolveEvent::RoleFound(Err(err)) => r == lookup_failed(err),
            ResolveEvent::RoleFound(Ok(Some(role))) => r == (
                ResolveState::LoadingMatrix { user, role, ip },
                ResolveAction::LoadMatrix(user.org_id),
            ),
            ResolveEvent::RoleFound(Ok(None)) => r == unauthenticated(),
            _ => false,
        },
        ResolveState::LoadingMatrix { user, role, ip } => match e {
            ResolveEvent::MatrixLoaded(Err(err)) => r == lookup_failed(err),
            ResolveEvent::MatrixLoaded(Ok(matrix)) => r == (
                ResolveState::Finished,
                ResolveAction::Done(Ok(ActorContext { actor: user, actor_role: role, matrix, ip })),
            ),
            _ => false,
        },
        ResolveState::Finished => false,
    }
}

/// Unauthorized, built.
fn refuse() -> (r: (ResolveState, ResolveAction))
    ensures
        r == unauthenticated(),
{
    (ResolveState::Finished, ResolveAction::Done(Err(AppError::Unauthorized)))
}

/// The repository error, built.
fn failed(err: RepoError) -> (r: (ResolveState, ResolveAction))
    ensures
        r == lookup_failed(err),
{
    (ResolveState::Finished, ResolveAction::Done(Err(AppError::Domain(DomainError::from(err)))))
}

/// One step of resolving the actor behind a session. The session is looked
/// up; a missing one is `Unauthorized`, and one whose expiry has come is
/// deleted and then `Unauthorized`. The session's user must exist and be
/// active, and the user's role must exist, else `Unauthorized`. The
/// organization's matrix is loaded and the actor's context handed back. Only
/// a failed lookup or load is another error.
pub fn resolve_step(s: ResolveState, e: ResolveEvent) -> (r: (ResolveState, ResolveAction))
    requires
        resolve_expects(s, e),
    ensures
        resolve_spec(s, e, r),
{
    match s {
        ResolveState::Start { session_id, ip } => {
            let lookup = session_id.clone();
            (ResolveState::FindingSession { session_id, ip }, ResolveAction::FindSession(lookup))
        },
        ResolveState::FindingSession { session_id, ip } => match e {
            ResolveEvent::SessionFound { found, now } => match found {
                Err(err) => failed(err),
                Ok(None) => refuse(),
                Ok(Some(session)) => if session.is_expired(now) {
                    (ResolveState::DeletingExpired, ResolveAction::DeleteSession(session_id))
                } else {
                    (ResolveState::FindingUser { ip }, ResolveAction::FindUser(session.user_id))
                },
            },
            _ => {
                assert(false);
                refuse()
            },
        },
        ResolveState::DeletingExpired => refuse(),
        ResolveState::FindingUser { ip } => match e {
            ResolveEvent::UserFound(Err(err)) => failed(err),
            ResolveEvent::UserFound(Ok(Some(user))) => if user.is_active() {
                let role_id = user.role_id;
                (ResolveState::FindingRole { user, ip }, ResolveAction::FindRole(role_id))
            } else {
                refuse()
            },
            ResolveEvent::UserFound(Ok(None)) => refuse(),
            _ => {
                assert(false);
                refuse()
            },
        },
        ResolveState::FindingRole { user, ip } => match e {
            ResolveEvent::RoleFound(Err(err)) => failed(err),
            ResolveEvent::RoleFound(Ok(Some(role))) => {
                let org = user.org_id;
                (ResolveState::LoadingMatrix { user, role, ip }, ResolveAction::LoadMatrix(org))
            },
            ResolveEvent::RoleFound(Ok(None)) => refuse(),
            _ => {
                assert(false);
                refuse()
            },
        },
        ResolveState::LoadingMatrix { user, role, ip } => match e {
            ResolveEvent::MatrixLoaded(Err(err)) => failed(err),
            ResolveEvent::MatrixLoaded(Ok(matrix)) => (
                ResolveState::Finished,
                ResolveAction::Done(Ok(ActorContext { actor: user, actor_role: role, matrix, ip })),
            ),
            _ => {
                assert(false);
                refuse()
            },
        },
        ResolveState::Finished => {
            assert(false);
            refuse()
        },
    }
}

/// An expired session is deleted, and exactly an expired one: the deletion
/// is asked for when, and only when, the session found has reached its
/// expiry, and the step after it answers `Unauthorized`.
pub proof fn expired_sessions_are_deleted(s: ResolveState, e: ResolveEvent, r: (ResolveState, ResolveAction))
    requires
        resolve_expects(s, e),
        resolve_spec(s, e, r),
    ensures
        r.1 is DeleteSession <==> (s is FindingSession && (e matches ResolveEvent::SessionFound {
            found: Ok(Some(session)),
            now,
        } && now >= session.expires_at)),
        s is DeletingExpired ==> r == unauthenticated(),
{
}

/// Only an active account's role is looked up, so a context is only ever
/// built for an active account; every error a resolution answers is
/// `Unauthorized` unless a lookup or load failed.
pub proof fn only_active_accounts_resolve(s: ResolveState, e: ResolveEvent, r: (ResolveState, ResolveAction))
    requires
        resolve_expects(s, e),
        resolve_spec(s, e, r),
    ensures
        r.1 is FindRole ==> (e matches ResolveEvent::UserFound(Ok(Some(u))) && u.status == UserStatus::Active),
        r.1 matches ResolveAction::Done(Ok(c)) ==> (s matches ResolveState::LoadingMatrix { user, .. } && c.actor
            == user),
        r.1 matches ResolveAction::Done(Err(err)) ==> (err == AppError::Unauthorized || e matches ResolveEvent::SessionFound {
            found: Err(_),
            ..
        } || e matches ResolveEvent::UserFound(Err(_)) || e matches ResolveEvent::RoleFound(Err(_))
            || e matches ResolveEvent::MatrixLoaded(Err(_))),
{
}

} // verus!
