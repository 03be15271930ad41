//! Signing in with a password, as a state machine: each step takes the
//! outcome of the host's last action and says what to do next. Every way a
//! sign-in can be refused answers the same `Unauthorized`.

use crate::entities::email::{email_text, is_valid_email, Email};
use crate::entities::session::Session;
use crate::entities::user::{User, UserStatus};
use crate::entities::Timestamp;
use crate::error::{domain_error_of, DomainError, RepoError};
use crate::ids::{OrgId, SessionId};
use crate::usecases::auth::{login_candidate, login_outcome, new_session};
use crate::usecases::error::AppError;
use vstd::prelude::*;

verus! {

/// Where a sign-in stands. `ttl` is the session lifetime.
#[derive(Debug)]
pub enum LoginState {
    /// Nothing done yet.
    Start { org: OrgId, email: String, password: String, ttl: i128 },
    /// Waiting for the account with the email.
    FindingUser { password: String, ttl: i128 },
    /// Waiting for the password check against the stored hash.
    Verifying { user: User, ttl: i128 },
    /// Waiting for a fresh session id; `now` is when the password checked out.
    Minting { user: User, ttl: i128, now: Timestamp },
    /// Waiting for the session to be stored.
    Creating { user: User, session: Session },
    /// Answered.
    Finished,
}

/// What the host reports back.
#[derive(Debug)]
pub enum LoginEvent {
    /// Start the sign-in.
    Begin,
    /// The account lookup by organization and email.
    UserFound(Result<Option<User>, RepoError>),
    /// The password check, and the time it was made.
    Verified { ok: Result<bool, DomainError>, now: Timestamp },
    /// A fresh session id.
    SessionMinted(Result<SessionId, DomainError>),
    /// The session write.
    Written(Result<(), RepoError>),
}

/// What the host is asked to do next.
#[derive(Debug)]
pub enum LoginAction {
    /// Look the account up by organization and email.
    FindUser { org: OrgId, email: Email },
    /// Check the password against the stored hash.
    VerifyPassword { password: String, hash: String },
    /// Draw a fresh session id.
    MintSessionId,
    /// Store the session.
    CreateSession(Session),
    /// The answer to the caller.
    Done(Result<(User, Session), AppError>),
}

/// The events each state waits for; the new session's expiry must fit.
pub open spec fn login_expects(s: LoginState, e: LoginEvent) -> bool {
    match s {
        LoginState::Start { .. } => e is Begin,
        LoginState::FindingUser { .. } => e is UserFound,
        LoginState::Verifying { .. } => e is Verified,
        LoginState::Minting { ttl, now, .. } => e is SessionMinted && i128::MIN <= now + ttl <= i128::MAX,
        LoginState::Creating { .. } => e is Written,
        LoginState::Finished => false,
    }
}

/// A refused sign-in.
pub open spec fn refused() -> (LoginState, LoginAction) {
    (LoginState::Finished, LoginAction::Done(Err(AppError::Unauthorized)))
}

/// One step of a sign-in: the next state and action for an event.
pub open spec fn login_spec(s: LoginState, e: LoginEvent, r: (LoginState, LoginAction)) -> bool {
    match s {
        LoginState::Start { org, email, password, ttl } => if is_valid_email(email_text(email@)) {
            &&& r.0 == LoginState::FindingUser { password, ttl }
            &&& r.1 matches LoginAction::FindUser { org: o, email: em } && o == org && em@ == email_text(email@)
        } else {
            r == refused()
        },
        LoginState::FindingUser { password, ttl } => match e {
            LoginEvent::UserFound(Err(err)) => r == (
                LoginState::Finished,
                LoginAction::Done(Err(AppError::Domain(domain_error_of(err)))),
            ),
            LoginEvent::UserFound(Ok(None)) => r == refused(),
            LoginEvent::UserFound(Ok(Some(u))) => match u.password_hash {
                Some(h) => r == (LoginState::Verifying { user: u, ttl }, LoginAction::VerifyPassword {
                    password,
                    hash: h,
                }),
                None => r == refused(),
            },
            _ => false,
        },
        LoginState::Verifying { user, ttl } => match e {
            LoginEvent::Verified { ok: Err(err), .. } => r == (
                LoginState::Finished,
                LoginAction::Done(Err(AppError::Domain(err))),
            ),
            LoginEvent::Verified { ok: Ok(matched), now } => if matched && user.status == UserStatus::Active {
                r == (LoginState::Minting { user, ttl, now }, LoginAction::MintSessionId)
            } else {
                r == refused()
            },
            _ => false,
        },
        LoginState::Minting { user, ttl, now } => match e {
            LoginEvent::SessionMinted(Err(err)) => r == (
                LoginState::Finished,
                LoginAction::Done(Err(AppError::Domain(err))),
            ),
            LoginEvent::SessionMinted(Ok(id)) => {
                let session = Session { id, user_id: user.id, created_at: now, expires_at: (now + ttl) as i128 };
                r == (LoginState::Creating { user, session }, LoginAction::CreateSession(session))
            },
            _ => false,
        },
        LoginState::Creating { user, session } => match e {
            LoginEvent::Written(Err(err)) => r == (
                LoginState::Finished,
                LoginAction::Done(Err(AppError::Domain(domain_error_of(err)))),
            ),
            LoginEvent::Written(Ok(())) => r == (LoginState::Finished, LoginAction::Done(Ok((user, session)))),
            _ => false,
        },
        LoginState::Finished => false,
    }
}

/// One step of a password sign-in. The email must be well formed and belong
/// to an account in the organization, the account must have a password, the
/// password must match it and the account must be active; each of these
/// failing answers `Unauthorized`. Then a fresh session starting when the
/// password checked out is stored and handed back with the user. Only a
/// failed lookup, check, draw or write is another error.
pub fn login_step(s: LoginState, e: LoginEvent) -> (r: (LoginState, LoginAction))
    requires
        login_expects(s, e),
    ensures
        login_spec(s, e, r),
{
    match s {
        LoginState::Start { org, email, password, ttl } => match Email::parse(email.as_str()) {
            Ok(em) => (LoginState::FindingUser { password, ttl }, LoginAction::FindUser { org, email: em }),
            Err(_) => refuse(),
        },
        LoginState::FindingUser { password, ttl } => match e {
            LoginEvent::UserFound(Err(err)) => (
                LoginState::Finished,
                LoginAction::Done(Err(AppError::Domain(DomainError::from(err)))),
            ),
            LoginEvent::UserFound(Ok(found)) => match login_candidate(found) {
                Ok((user, hash)) => (LoginState::Verifying { user, ttl }, LoginAction::VerifyPassword { password, hash }),
                Err(err) => (LoginState::Finished, LoginAction::Done(Err(err))),
            },
            _ => {
                assert(false);
                refuse()
            },
        },
        LoginState::Verifying { user, ttl } => match e {
            LoginEvent::Verified { ok: Err(err), .. } => (
                LoginState::Finished,
                LoginAction::Done(Err(AppError::Domain(err))),
            ),
            LoginEvent::Verified { ok: Ok(matched), now } => match login_outcome(user, matched) {
                Ok(user) => (LoginState::Minting { user, ttl, now }, LoginAction::MintSessionId),
                Err(err) => (LoginState::Finished, LoginAction::Done(Err(err))),
            },
            _ => {
                assert(false);
                refuse()
            },
        },
        LoginState::Minting { user, ttl, now } => match e {
            LoginEvent::SessionMinted(Err(err)) => (
                LoginState::Finished,
                LoginAction::Done(Err(AppError::Domain(err))),
            ),
            LoginEvent::SessionMinted(Ok(id)) => {
                let session = new_session(id, user.id, now, ttl);
                let stored = session.clone();
                (LoginState::Creating { user, session }, LoginAction::CreateSession(stored))
            },
            _ => {
                assert(false);
                refuse()
            },
        },
        LoginState::Creating { user, session } => match e {
            LoginEvent::Written(Err(err)) => (
                LoginState::Finished,
                LoginAction::Done(Err(AppError::Domain(DomainError::from(err)))),
            ),
            LoginEvent::Written(Ok(())) => (LoginState::Finished, LoginAction::Done(Ok((user, session)))),
            _ => {
                assert(false);
                refuse()
            },
        },
        LoginState::Finished => {
            assert(false);
            refuse()
        },
    }
}

/// A refused sign-in, built.
fn refuse() -> (r: (LoginState, LoginAction))
    ensures
        r == refused(),
{
    (LoginState::Finished, LoginAction::Done(Err(AppError::Unauthorized)))
}

/// Every error a sign-in answers is `Unauthorized`, unless it comes from a
/// failed lookup, password check, id draw or session write.
pub proof fn login_failures_are_unauthorized(s: LoginState, e: LoginEvent, r: (LoginState, LoginAction))
    requires
        login_expects(s, e),
        login_spec(s, e, r),
        r.1 matches LoginAction::Done(Err(_)),
    ensures
        r.1 == LoginAction::Done(Err(AppError::Unauthorized)) || e matches LoginEvent::UserFound(Err(_))
            || e matches LoginEvent::Verified { ok: Err(_), .. } || e matches LoginEvent::SessionMinted(Err(_))
            || e matches LoginEvent::Written(Err(_)),
{
}

/// A session is only started for an active account whose password checked
/// out, and it is handed back only once it was stored.
pub proof fn login_needs_active_account_and_password(s: LoginState, e: LoginEvent, r: (LoginState, LoginAction))
    requires
        login_expects(s, e),
        login_spec(s, e, r),
    ensures
        r.1 is MintSessionId ==> (s matches LoginState::Verifying { user, .. } && user.status == UserStatus::Active
            && e matches LoginEvent::Verified { ok: Ok(true), .. }),
        r.1 matches LoginAction::Done(Ok(_)) ==> (s is Creating && e matches LoginEvent::Written(Ok(_))),
{
}

} // verus!
