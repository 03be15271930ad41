//! Redeeming a password-reset link or an invitation, as state machines: each
//! step takes the outcome of the host's last action and says what to do
//! next. Both exchange a single-use token for a new password and a fresh
//! session; a reset also revokes every earlier session first.

use crate::entities::organization::Organization;
use crate::entities::session::Session;
use crate::entities::user::{User, UserStatus};
use crate::entities::Timestamp;
use crate::error::{domain_error_of, DomainError, RepoError};
use crate::ids::{OrgId, SessionId, UserId};
use crate::infra::tokens::{api_token_hash, token_hash_of};
use crate::ports::assert_password_ok;
use crate::services::password_policy::{satisfies, violations_of};
use crate::usecases::auth::{activate_invited, new_session, with_new_password};
use crate::usecases::error::AppError;
use vstd::prelude::*;

verus! {

/// Which token is redeemed.
#[derive(Debug, Clone, Copy, PartialEq, Eq, Structural)]
pub enum CredentialKind {
    /// A password-reset link: the account must be active.
    PasswordReset,
    /// An invitation: the account must still be invited.
    Invitation,
}

/// The parts of a stored reset or invitation token the flow reads.
#[derive(Debug, Clone, Copy, PartialEq, Eq, Structural)]
pub struct TokenRecord {
    pub id: u128,
    pub user_id: UserId,
    pub expires_at: Timestamp,
}

/// Where a redemption stands. `ttl` is the session lifetime and `now` the
/// time read when the token was found.
#[derive(Debug)]
pub enum CredentialState {
    /// Nothing done yet: the token as received and the new password.
    Start { token: String, password: String, ttl: i128 },
    /// Waiting for the token's record.
    FindingToken { password: String, ttl: i128 },
    /// Waiting for an expired token to be deleted.
    DeletingExpired,
    /// Waiting for the token's user.
    FindingUser { password: String, ttl: i128, now: Timestamp },
    /// Waiting for the user's organization.
    LoadingOrg { user: User, password: String, ttl: i128, now: Timestamp },
    /// Waiting for the new password's hash.
    Hashing { user: User, ttl: i128, now: Timestamp },
    /// Waiting for the updated user to be stored.
    Updating { user: User, ttl: i128, now: Timestamp },
    /// Waiting for the user's tokens of this kind to be deleted.
    ClearingTokens { user: User, ttl: i128, now: Timestamp },
    /// Waiting for every session of the user to be deleted (resets only).
    ClearingSessions { user: User, ttl: i128, now: Timestamp },
    /// Waiting for a fresh session id.
    Minting { user: User, ttl: i128, now: Timestamp },
    /// Waiting for the new session to be stored.
    Creating { user: User, session: Session },
    /// The redemption is answered.
    Finished,
}

/// The outcome of the host's last action.
#[derive(Debug)]
pub enum CredentialEvent {
    /// Start the redemption.
    Begin,
    /// The token's record (or its absence, or the lookup's failure) and the
    /// time.
    TokenFound { found: Result<Option<TokenRecord>, RepoError>, now: Timestamp },
    /// The expired token was deleted, or the deletion failed.
    ExpiredDeleted,
    /// The token's user, or the lookup's failure.
    UserFound(Result<Option<User>, RepoError>),
    /// The user's organization, or the lookup's failure.
    OrgFound(Result<Option<Organization>, RepoError>),
    /// The new password's hash, or the hasher's failure.
    Hashed(Result<String, DomainError>),
    /// A write (user update, token or session deletion, session creation)
    /// succeeded or failed.
    Written(Result<(), RepoError>),
    /// A fresh session id, or the random source's failure.
    SessionMinted(Result<SessionId, DomainError>),
}

/// What the host does next.
#[derive(Debug)]
pub enum CredentialAction {
    /// Look up the token of this kind with this hash.
    FindToken(String),
    /// Delete the token of this kind with this id.
    DeleteToken(u128),
    /// Look up the user.
    FindUser(UserId),
    /// Look up the organization.
    LoadOrg(OrgId),
    /// Hash this password.
    HashPassword(String),
    /// Store the updated user.
    UpdateUser(User),
    /// Delete every token of this kind of the user.
    DeleteTokensFor(UserId),
    /// Delete every session of the user.
    DeleteAllSessions(UserId),
    /// Mint a session id.
    MintSessionId,
    /// Store this session.
    CreateSession(Session),
    /// Answer the caller: the signed-in user and the new session.
    Done(Result<(User, Session), AppError>),
}

/// The events each state waits for; the new session's expiry must fit.
pub open spec fn credential_expects(s: CredentialState, e: CredentialEvent) -> bool {
    match s {
        CredentialState::Start { .. } => e is Begin,
        CredentialState::FindingToken { .. } => e is TokenFound,
        CredentialState::DeletingExpired => e is ExpiredDeleted,
        CredentialState::FindingUser { .. } => e is UserFound,
        CredentialState::LoadingOrg { .. } => e is OrgFound,
        CredentialState::Hashing { .. } => e is Hashed,
        CredentialState::Updating { .. } => e is Written,
        CredentialState::ClearingTokens { .. } => e is Written,
        CredentialState::ClearingSessions { .. } => e is Written,
        CredentialState::Minting { ttl, now, .. } => e is SessionMinted && i128::MIN <= now + ttl <= i128::MAX,
        CredentialState::Creating { .. } => e is Written,
        CredentialState::Finished => false,
    }
}

/// The user a token may be redeemed for: an active account for a reset, an
/// invited one for an invitation.
pub open spec fn redeemable(kind: CredentialKind, u: User) -> bool {
    match kind {
        CredentialKind::PasswordReset => u.status == UserStatus::Active,
        CredentialKind::Invitation => u.status == UserStatus::Invited,
    }
}

/// The user after redemption: the new hash, last active now, and, for an
/// invitation, active.
pub open spec fn redeemed_user(kind: CredentialKind, u: User, hash: String, now: Timestamp) -> User {
    match kind {
        CredentialKind::PasswordReset => User { password_hash: Some(hash), last_active_at: Some(now), ..u },
        CredentialKind::Invitation => User {
            password_hash: Some(hash),
            status: UserStatus::Active,
            last_active_at: Some(now),
            ..u
        },
    }
}

/// The answer for a failed write.
pub open spec fn write_failed(err: RepoError) -> (CredentialState, CredentialAction) {
    (CredentialState::Finished, CredentialAction::Done(Err(AppError::Domain(domain_error_of(err)))))
}

/// Answered `Unauthorized`.
pub open spec fn unauthorized() -> (CredentialState, CredentialAction) {
    (CredentialState::Finished, CredentialAction::Done(Err(AppError::Unauthorized)))
}

/// One step of a redemption: the next state and action for an event.
pub open spec fn credential_spec(
    kind: CredentialKind,
    s: CredentialState,
    e: CredentialEvent,
    r: (CredentialState, CredentialAction),
) -> bool {
    match s {
        CredentialState::Start { token, password, ttl } => {
            &&& r.0 == CredentialState::FindingToken { password, ttl }
            &&& r.1 matches CredentialAction::FindToken(h) && h@ == token_hash_of(token@)
        },
        CredentialState::FindingToken { password, ttl } => match e {
            CredentialEvent::TokenFound { found, now } => match found {
                Err(err) => r == write_failed(err),
                Ok(None) => r == unauthorized(),
                Ok(Some(t)) => if now >= t.expires_at {
                    r == (CredentialState::DeletingExpired, CredentialAction::DeleteToken(t.id))
                } else {
                    r == (CredentialState::FindingUser { password, ttl, now }, CredentialAction::FindUser(t.user_id))
                },
            },
            _ => false,
        },
        CredentialState::DeletingExpired => r == unauthorized(),
        CredentialState::FindingUser { password, ttl, now } => match e {
            CredentialEvent::UserFound(Err(err)) => r == write_failed(err),
            CredentialEvent::UserFound(Ok(None)) => r == unauthorized(),
            CredentialEvent::UserFound(Ok(Some(u))) => if redeemable(kind, u) {
                r == (
                    CredentialState::LoadingOrg { user: u, password, ttl, now },
                    CredentialAction::LoadOrg(u.org_id),
                )
            } else if kind == CredentialKind::Invitation {
                &&& r.0 == CredentialState::Finished
                &&& r.1 matches CredentialAction::Done(Err(AppError::Domain(DomainError::Invalid(m))))
                &&& m@ == "this invitation is no longer valid"@
            } else {
                r == unauthorized()
            },
            _ => false,
        },
        CredentialState::LoadingOrg { user, password, ttl, now } => match e {
            CredentialEvent::OrgFound(Err(err)) => r == write_failed(err),
            CredentialEvent::OrgFound(Ok(None)) => {
                &&& r.0 == CredentialState::Finished
                &&& r.1 matches CredentialAction::Done(Err(AppError::Domain(DomainError::NotFound(m))))
                &&& m@ == "organization"@
            },
            CredentialEvent::OrgFound(Ok(Some(org))) => if satisfies(password@, org.password_policy) {
                r == (CredentialState::Hashing { user, ttl, now }, CredentialAction::HashPassword(password))
            } else {
                &&& r.0 == CredentialState::Finished
                &&& r.1 matches CredentialAction::Done(Err(AppError::Domain(DomainError::PasswordPolicy(v))))
                &&& v@ == violations_of(password@, org.password_policy)
            },
            _ => false,
        },
        CredentialState::Hashing { user, ttl, now } => match e {
            CredentialEvent::Hashed(Err(err)) => r == (
                CredentialState::Finished,
                CredentialAction::Done(Err(AppError::Domain(err))),
            ),
            CredentialEvent::Hashed(Ok(hash)) => {
                let u = redeemed_user(kind, user, hash, now);
                r == (CredentialState::Updating { user: u, ttl, now }, CredentialAction::UpdateUser(u))
            },
            _ => false,
        },
        CredentialState::Updating { user, ttl, now } => match e {
            CredentialEvent::Written(Err(err)) => r == write_failed(err),
            CredentialEvent::Written(Ok(())) => r == (
                CredentialState::ClearingTokens { user, ttl, now },
                CredentialAction::DeleteTokensFor(user.id),
            ),
            _ => false,
        },
        CredentialState::ClearingTokens { user, ttl, now } => match e {
            CredentialEvent::Written(Err(err)) => r == write_failed(err),
            CredentialEvent::Written(Ok(())) => if kind == CredentialKind::PasswordReset {
                r == (
                    CredentialState::ClearingSessions { user, ttl, now },
                    CredentialAction::DeleteAllSessions(user.id),
                )
            } else {
                r == (CredentialState::Minting { user, ttl, now }, CredentialAction::MintSessionId)
            },
            _ => false,
        },
        CredentialState::ClearingSessions { user, ttl, now } => match e {
            CredentialEvent::Written(Err(err)) => r == write_failed(err),
            CredentialEvent::Written(Ok(())) => r == (
                CredentialState::Minting { user, ttl, now },
                CredentialAction::MintSessionId,
            ),
            _ => false,
        },
        CredentialState::Minting { user, ttl, now } => match e {
            CredentialEvent::SessionMinted(Err(err)) => r == (
                CredentialState::Finished,
                CredentialAction::Done(Err(AppError::Domain(err))),
            ),
            CredentialEvent::SessionMinted(Ok(id)) => {
                let session = Session { id, user_id: user.id, created_at: now, expires_at: (now + ttl) as i128 };
                r == (CredentialState::Creating { user, session }, CredentialAction::CreateSession(session))
            },
            _ => false,
        },
        CredentialState::Creating { user, session } => match e {
            CredentialEvent::Written(Err(err)) => r == write_failed(err),
            CredentialEvent::Written(Ok(())) => r == (
                CredentialState::Finished,
                CredentialAction::Done(Ok((user, session))),
            ),
            _ => false,
        },
        CredentialState::Finished => false,
    }
}

/// The answer for a failed write, built.
fn failed(err: RepoError) -> (r: (CredentialState, CredentialAction))
    ensures
        r == write_failed(err),
{
    (CredentialState::Finished, CredentialAction::Done(Err(AppError::Domain(DomainError::from(err)))))
}

/// One step of a redemption of either kind.
fn credential_step(kind: CredentialKind, s: CredentialState, e: CredentialEvent) -> (r: (
    CredentialState,
    CredentialAction,
))
    requires
        credential_expects(s, e),
    ensures
        credential_spec(kind, s, e, r),
{
    match s {
        CredentialState::Start { token, password, ttl } => {
            let h = api_token_hash(token.as_str());
            (CredentialState::FindingToken { password, ttl }, CredentialAction::FindToken(h))
        },
        CredentialState::FindingToken { password, ttl } => match e {
            CredentialEvent::TokenFound { found, now } => match found {
                Err(err) => failed(err),
                Ok(None) => (CredentialState::Finished, CredentialAction::Done(Err(AppError::Unauthorized))),
                Ok(Some(t)) => if now >= t.expires_at {
                    (CredentialState::DeletingExpired, CredentialAction::DeleteToken(t.id))
                } else {
                    (CredentialState::FindingUser { password, ttl, now }, CredentialAction::FindUser(t.user_id))
                },
            },
            _ => {
                assert(false);
                (CredentialState::Finished, CredentialAction::Done(Err(AppError::Unauthorized)))
            },
        },
        CredentialState::DeletingExpired => (
            CredentialState::Finished,
            CredentialAction::Done(Err(AppError::Unauthorized)),
        ),
        CredentialState::FindingUser { password, ttl, now } => match e {
            CredentialEvent::UserFound(Err(err)) => failed(err),
            CredentialEvent::UserFound(Ok(None)) => (
                CredentialState::Finished,
                CredentialAction::Done(Err(AppError::Unauthorized)),
            ),
            CredentialEvent::UserFound(Ok(Some(u))) => {
                let ok = match kind {
                    CredentialKind::PasswordReset => u.status == UserStatus::Active,
                    CredentialKind::Invitation => u.status == UserStatus::Invited,
                };
                if ok {
                    let org = u.org_id;
                    (CredentialState::LoadingOrg { user: u, password, ttl, now }, CredentialAction::LoadOrg(org))
                } else {
                    match kind {
                        CredentialKind::Invitation => (
                            CredentialState::Finished,
                            CredentialAction::Done(
                                Err(
                                    AppError::Domain(
                                        DomainError::Invalid(
                                            crate::text::owned("this invitation is no longer valid"),
                                        ),
                                    ),
                                ),
                            ),
                        ),
                        CredentialKind::PasswordReset => (
                            CredentialState::Finished,
                            CredentialAction::Done(Err(AppError::Unauthorized)),
                        ),
                    }
                }
            },
            _ => {
                assert(false);
                (CredentialState::Finished, CredentialAction::Done(Err(AppError::Unauthorized)))
            },
        },
        CredentialState::LoadingOrg { user, password, ttl, now } => match e {
            CredentialEvent::OrgFound(Err(err)) => failed(err),
            CredentialEvent::OrgFound(Ok(None)) => (
                CredentialState::Finished,
                CredentialAction::Done(
                    Err(AppError::Domain(DomainError::NotFound(crate::text::owned("organization")))),
                ),
            ),
            CredentialEvent::OrgFound(Ok(Some(org))) => match assert_password_ok(
                password.as_str(),
                &org.password_policy,
            ) {
                Ok(()) => (CredentialState::Hashing { user, ttl, now }, CredentialAction::HashPassword(password)),
                Err(err) => (CredentialState::Finished, CredentialAction::Done(Err(AppError::Domain(err)))),
            },
            _ => {
                assert(false);
                (CredentialState::Finished, CredentialAction::Done(Err(AppError::Unauthorized)))
            },
        },
        CredentialState::Hashing { user, ttl, now } => match e {
            CredentialEvent::Hashed(Err(err)) => (
                CredentialState::Finished,
                CredentialAction::Done(Err(AppError::Domain(err))),
            ),
            CredentialEvent::Hashed(Ok(hash)) => {
                let u = match kind {
                    CredentialKind::PasswordReset => with_new_password(user, hash, now),
                    CredentialKind::Invitation => activate_invited(user, hash, now),
                };
                let stored = u.clone();
                (CredentialState::Updating { user: u, ttl, now }, CredentialAction::UpdateUser(stored))
            },
            _ => {
                assert(false);
                (CredentialState::Finished, CredentialAction::Done(Err(AppError::Unauthorized)))
            },
        },
        CredentialState::Updating { user, ttl, now } => match e {
            CredentialEvent::Written(Err(err)) => failed(err),
            CredentialEvent::Written(Ok(())) => {
                let uid = user.id;
                (CredentialState::ClearingTokens { user, ttl, now }, CredentialAction::DeleteTokensFor(uid))
            },
            _ => {
                assert(false);
                (CredentialState::Finished, CredentialAction::Done(Err(AppError::Unauthorized)))
            },
        },
        CredentialState::ClearingTokens { user, ttl, now } => match e {
            CredentialEvent::Written(Err(err)) => failed(err),
            CredentialEvent::Written(Ok(())) => match kind {
                CredentialKind::PasswordReset => {
                    let uid = user.id;
                    (CredentialState::ClearingSessions { user, ttl, now }, CredentialAction::DeleteAllSessions(uid))
                },
                CredentialKind::Invitation => (
                    CredentialState::Minting { user, ttl, now },
                    CredentialAction::MintSessionId,
                ),
            },
            _ => {
                assert(false);
                (CredentialState::Finished, CredentialAction::Done(Err(AppError::Unauthorized)))
            },
        },
        CredentialState::ClearingSessions { user, ttl, now } => match e {
            CredentialEvent::Written(Err(err)) => failed(err),
            CredentialEvent::Written(Ok(())) => (
                CredentialState::Minting { user, ttl, now },
                CredentialAction::MintSessionId,
            ),
            _ => {
                assert(false);
                (CredentialState::Finished, CredentialAction::Done(Err(AppError::Unauthorized)))
            },
        },
        CredentialState::Minting { user, ttl, now } => match e {
            CredentialEvent::SessionMinted(Err(err)) => (
                CredentialState::Finished,
                CredentialAction::Done(Err(AppError::Domain(err))),
            ),
            CredentialEvent::SessionMinted(Ok(id)) => {
                let session = new_session(id, user.id, now, ttl);
                let stored = session.clone();
                (CredentialState::Creating { user, session }, CredentialAction::CreateSession(stored))
            },
            _ => {
                assert(false);
                (CredentialState::Finished, CredentialAction::Done(Err(AppError::Unauthorized)))
            },
        },
        CredentialState::Creating { user, session } => match e {
            CredentialEvent::Written(Err(err)) => failed(err),
            CredentialEvent::Written(Ok(())) => (
                CredentialState::Finished,
                CredentialAction::Done(Ok((user, session))),
            ),
            _ => {
                assert(false);
                (CredentialState::Finished, CredentialAction::Done(Err(AppError::Unauthorized)))
            },
        },
        CredentialState::Finished => {
            assert(false);
            (CredentialState::Finished, CredentialAction::Done(Err(AppError::Unauthorized)))
        },
    }
}

/// One step of completing a password reset. The link's token is looked up by
/// its hash; a missing token is `Unauthorized`, and an expired one is deleted
/// and then `Unauthorized`. The account must be active (else
/// `Unauthorized`), its organization must exist and the new password satisfy
/// its policy. The user is stored with the new hash, the user's reset tokens
/// are deleted, then every session of the user, and only then a fresh session
/// is created and handed back with the user.
pub fn reset_password_step(s: CredentialState, e: CredentialEvent) -> (r: (CredentialState, CredentialAction))
    requires
        credential_expects(s, e),
    ensures
        credential_spec(CredentialKind::PasswordReset, s, e, r),
        (s is FindingUser && (e matches CredentialEvent::UserFound(Ok(Some(u))) && u.status != UserStatus::Active))
            ==> r == unauthorized(),
{
    credential_step(CredentialKind::PasswordReset, s, e)
}

/// One step of accepting an invitation. The token is looked up by its hash;
/// a missing token is `Unauthorized`, and an expired one is deleted and then
/// `Unauthorized`. The user must still be invited (else the invitation is
/// no longer valid), its organization must exist and the new password satisfy
/// its policy. The user is stored active with the new hash, and only after
/// that the user's invitation tokens are deleted and a fresh session is
/// created and handed back with the user.
pub fn accept_invite_step(s: CredentialState, e: CredentialEvent) -> (r: (CredentialState, CredentialAction))
    requires
        credential_expects(s, e),
    ensures
        credential_spec(CredentialKind::Invitation, s, e, r),
        (s is FindingUser && (e matches CredentialEvent::UserFound(Ok(Some(u))) && u.status != UserStatus::Invited))
            ==> (r.0 is Finished && r.1 matches CredentialAction::Done(Err(AppError::Domain(DomainError::Invalid(_))))),
{
    credential_step(CredentialKind::Invitation, s, e)
}

/// A token that is missing, expired or tied to no (eligible) account is never
/// redeemed: those steps answer `Unauthorized` or, for a user no longer
/// invited, that the invitation is invalid; an expired token is deleted
/// before the answer.
pub proof fn stale_tokens_are_refused(
    kind: CredentialKind,
    s: CredentialState,
    e: CredentialEvent,
    r: (CredentialState, CredentialAction),
)
    requires
        credential_expects(s, e),
        credential_spec(kind, s, e, r),
    ensures
        s is FindingToken ==> (e matches CredentialEvent::TokenFound { found: Ok(None), .. } ==> r == unauthorized()),
        s is FindingToken ==> (e matches CredentialEvent::TokenFound { found: Ok(Some(t)), now } ==> (now
            >= t.expires_at ==> r.1 == CredentialAction::DeleteToken(t.id) && r.0 is DeletingExpired)),
        s is DeletingExpired ==> r == unauthorized(),
        s is FindingUser ==> (e matches CredentialEvent::UserFound(Ok(None)) ==> r == unauthorized()),
{
}

/// A reset revokes every earlier session before it opens a new one: a new
/// session is only created from `Minting`, which a reset enters only from
/// `ClearingSessions`, which it enters only by deleting every session of the
/// user.
pub proof fn reset_revokes_sessions_first(s: CredentialState, e: CredentialEvent, r: (CredentialState, CredentialAction))
    requires
        credential_expects(s, e),
        credential_spec(CredentialKind::PasswordReset, s, e, r),
    ensures
        r.1 is CreateSession ==> s is Minting,
        r.0 is Minting ==> s is ClearingSessions,
        r.0 is ClearingSessions ==> (r.1 matches CredentialAction::DeleteAllSessions(uid) && (s matches CredentialState::ClearingTokens { user, .. } && uid == user.id)),
{
}

/// An invitation's tokens are deleted only after the user was stored as
/// active with the new password.
pub proof fn invite_tokens_deleted_after_activation(
    s: CredentialState,
    e: CredentialEvent,
    r: (CredentialState, CredentialAction),
)
    requires
        credential_expects(s, e),
        credential_spec(CredentialKind::Invitation, s, e, r),
    ensures
        r.1 matches CredentialAction::UpdateUser(u) ==> u.status == UserStatus::Active,
        r.1 is DeleteTokensFor ==> s is Updating && e matches CredentialEvent::Written(Ok(_)),
        r.0 matches CredentialState::Updating { user, .. } ==> user.status == UserStatus::Active,
{
}

/// The account a redemption carries at each stage: a reset carries an active
/// account throughout; an invitation carries a still-invited account until
/// it is stored active, and an active one after that.
pub open spec fn account_fits(kind: CredentialKind, s: CredentialState) -> bool {
    let before_update = if kind == CredentialKind::PasswordReset {
        UserStatus::Active
    } else {
        UserStatus::Invited
    };
    match s {
        CredentialState::LoadingOrg { user, .. } => user.status == before_update,
        CredentialState::Hashing { user, .. } => user.status == before_update,
        CredentialState::Updating { user, .. } => user.status == UserStatus::Active,
        CredentialState::ClearingTokens { user, .. } => user.status == UserStatus::Active,
        CredentialState::ClearingSessions { user, .. } => user.status == UserStatus::Active,
        CredentialState::Minting { user, .. } => user.status == UserStatus::Active,
        CredentialState::Creating { user, session } => user.status == UserStatus::Active && session.user_id
            == user.id,
        _ => true,
    }
}

/// A password reset only ever goes on for an active account, and an
/// invitation only for an invited one: when the token's account is found in
/// any other status, a reset answers `Unauthorized` and an invitation answers
/// that it is no longer valid, so neither stores a password nor creates a
/// session. Every step keeps the carried account fitting, so a session is
/// only ever created for, and handed back with, an active account.
pub proof fn only_eligible_accounts_redeem(
    kind: CredentialKind,
    s: CredentialState,
    e: CredentialEvent,
    r: (CredentialState, CredentialAction),
)
    requires
        credential_expects(s, e),
        credential_spec(kind, s, e, r),
        account_fits(kind, s),
    ensures
        account_fits(kind, r.0),
        (kind == CredentialKind::PasswordReset && s is FindingUser && (e matches CredentialEvent::UserFound(
            Ok(Some(u)),
        ) && u.status != UserStatus::Active)) ==> r == unauthorized(),
        (kind == CredentialKind::Invitation && s is FindingUser && (e matches CredentialEvent::UserFound(
            Ok(Some(u)),
        ) && u.status != UserStatus::Invited)) ==> (r.0 is Finished && r.1 matches CredentialAction::Done(
            Err(AppError::Domain(DomainError::Invalid(_))),
        )),
        r.1 matches CredentialAction::CreateSession(session) ==> (r.0 matches CredentialState::Creating { user, .. }
            && user.status == UserStatus::Active && session.user_id == user.id),
        r.1 matches CredentialAction::Done(Ok((u, session))) ==> (u.status == UserStatus::Active
            && session.user_id == u.id),
{
}

} // verus!
