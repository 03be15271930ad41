//! Asking for a password reset, as a state machine: each step takes the
//! outcome of the host's last action and says what to do next. The answer
//! never tells the caller whether the email belongs to an account.

use crate::entities::email::{email_text, is_valid_email, Email};
use crate::entities::password_reset_token::PasswordResetToken;
use crate::entities::user::{User, UserStatus};
use crate::entities::Timestamp;
use crate::error::{domain_error_of, DomainError, RepoError};
use crate::ids::{OrgId, PasswordResetTokenId, UserId};
use crate::infra::tokens::{api_token_hash, token_hash_of};
use crate::ports::OutgoingEmail;
use crate::usecases::auth::{
    org_display_name, reset_body, reset_email, reset_link, reset_link_of, reset_target, reset_token_record,
    RESET_TTL,
};
use crate::usecases::error::AppError;
use vstd::prelude::*;

verus! {

/// Where a reset request stands.
#[derive(Debug)]
pub enum ResetRequestState {
    /// Nothing done yet: the organization, the email as typed, and the base
    /// URL of the web app for the link.
    Start { org: OrgId, email: String, base_url: String },
    /// Waiting for the user with that email.
    FindingUser { base_url: String },
    /// Waiting for a fresh token, its record id and the time.
    Minting { user: User, base_url: String },
    /// Waiting for the user's earlier tokens to be deleted.
    Clearing { user: User, record: PasswordResetToken, full: String, base_url: String },
    /// Waiting for the new token's record to be stored.
    Storing { user: User, full: String, base_url: String },
    /// Waiting for the organization's name.
    Naming { user: User, full: String, base_url: String },
    /// Waiting for the mail to go out.
    Sending,
    /// The request is answered.
    Finished,
}

/// The outcome of the host's last action.
#[derive(Debug)]
pub enum ResetRequestEvent {
    /// Start the request.
    Begin,
    /// The user found by email, or the lookup's failure.
    UserFound(Result<Option<User>, RepoError>),
    /// A fresh token (its plaintext), an id for its record, and the time.
    Minted { token: String, id: PasswordResetTokenId, now: Timestamp },
    /// Minting failed (no random source).
    MintFailed(DomainError),
    /// The earlier tokens were deleted, or the deletion failed; either way
    /// the request goes on.
    Cleared,
    /// The new record was stored, or the store failed.
    Stored(Result<(), RepoError>),
    /// The organization's name, when it could be read.
    OrgName(Option<String>),
    /// The mail was sent (`true`) or delivery failed (`false`).
    Sent(bool),
}

/// What the host does next.
#[derive(Debug)]
pub enum ResetRequestAction {
    /// Look up the user of the organization with this email.
    FindUser { org: OrgId, email: Email },
    /// Mint a token, an id for its record, and read the clock.
    MintToken,
    /// Delete every reset token of the user.
    DeleteTokensFor(UserId),
    /// Store this token record.
    Insert(PasswordResetToken),
    /// Read the organization's name.
    LoadOrgName(OrgId),
    /// Send this mail.
    Send(OutgoingEmail),
    /// Answer the caller.
    Done(Result<(), AppError>),
}

/// The events each state waits for; a fresh token's expiry must fit.
pub open spec fn reset_request_expects(s: ResetRequestState, e: ResetRequestEvent) -> bool {
    match s {
        ResetRequestState::Start { .. } => e is Begin,
        ResetRequestState::FindingUser { .. } => e is UserFound,
        ResetRequestState::Minting { .. } => match e {
            ResetRequestEvent::Minted { now, .. } => now + RESET_TTL <= i128::MAX,
            ResetRequestEvent::MintFailed(_) => true,
            _ => false,
        },
        ResetRequestState::Clearing { .. } => e is Cleared,
        ResetRequestState::Storing { .. } => e is Stored,
        ResetRequestState::Naming { .. } => e is OrgName,
        ResetRequestState::Sending => e is Sent,
        ResetRequestState::Finished => false,
    }
}

/// The organization name a reset mail uses.
pub open spec fn org_name_of(name: Option<String>) -> Seq<char> {
    match name {
        Some(n) => n@,
        None => "the studio"@,
    }
}

/// One step of a reset request: the next state and action for an event.
pub open spec fn reset_request_spec(
    s: ResetRequestState,
    e: ResetRequestEvent,
    r: (ResetRequestState, ResetRequestAction),
) -> bool {
    match s {
        ResetRequestState::Start { org, email, base_url } => if is_valid_email(email_text(email@)) {
            &&& r.0 == ResetRequestState::FindingUser { base_url }
            &&& r.1 matches ResetRequestAction::FindUser { org: o, email: em } && o == org && em@ == email_text(email@)
        } else {
            r == (ResetRequestState::Finished, ResetRequestAction::Done(Ok(())))
        },
        ResetRequestState::FindingUser { base_url } => match e {
            ResetRequestEvent::UserFound(Err(err)) => r == (
                ResetRequestState::Finished,
                ResetRequestAction::Done(Err(AppError::Domain(domain_error_of(err)))),
            ),
            ResetRequestEvent::UserFound(Ok(found)) => match found {
                Some(u) => if u.status == UserStatus::Active {
                    r == (ResetRequestState::Minting { user: u, base_url }, ResetRequestAction::MintToken)
                } else {
                    r == (ResetRequestState::Finished, ResetRequestAction::Done(Ok(())))
                },
                None => r == (ResetRequestState::Finished, ResetRequestAction::Done(Ok(()))),
            },
            _ => false,
        },
        ResetRequestState::Minting { user, base_url } => match e {
            ResetRequestEvent::MintFailed(err) => r == (
                ResetRequestState::Finished,
                ResetRequestAction::Done(Err(AppError::Domain(err))),
            ),
            ResetRequestEvent::Minted { token, id, now } => {
                &&& r.1 == ResetRequestAction::DeleteTokensFor(user.id)
                &&& r.0 matches ResetRequestState::Clearing { user: u, record, full, base_url: b }
                &&& u == user && full == token && b == base_url
                &&& record.id == id && record.user_id == user.id
                &&& record.token_hash@ == token_hash_of(token@)
                &&& record.created_at == now && record.expires_at == now + RESET_TTL
            },
            _ => false,
        },
        ResetRequestState::Clearing { user, record, full, base_url } => r == (
            ResetRequestState::Storing { user, full, base_url },
            ResetRequestAction::Insert(record),
        ),
        ResetRequestState::Storing { user, full, base_url } => match e {
            ResetRequestEvent::Stored(Err(err)) => r == (
                ResetRequestState::Finished,
                ResetRequestAction::Done(Err(AppError::Domain(domain_error_of(err)))),
            ),
            ResetRequestEvent::Stored(Ok(())) => r == (
                ResetRequestState::Naming { user, full, base_url },
                ResetRequestAction::LoadOrgName(user.org_id),
            ),
            _ => false,
        },
        ResetRequestState::Naming { user, full, base_url } => match e {
            ResetRequestEvent::OrgName(name) => {
                &&& r.0 == ResetRequestState::Sending
                &&& r.1 matches ResetRequestAction::Send(m)
                &&& m.to_address@ == user.email@
                &&& m.to_name == user.name
                &&& m.subject@ == "Reset your "@ + org_name_of(name) + " password"@
                &&& m.body@ == reset_body(user.name@, org_name_of(name), reset_link_of(base_url@, full@))
            },
            _ => false,
        },
        ResetRequestState::Sending => r == (ResetRequestState::Finished, ResetRequestAction::Done(Ok(()))),
        ResetRequestState::Finished => false,
    }
}

/// One step of a password-reset request. A malformed email, an unknown one or
/// an account that is not active ends the request at once with `Ok(())`,
/// with no write and no mail. For an active account the steps are, in
/// order: mint a token, delete the account's earlier tokens, store only the
/// new token's hash with an expiry one hour on, send the reset link, and
/// answer `Ok(())` whether or not the mail went out. Only a failed lookup,
/// mint or store is an error.
pub fn reset_request_step(s: ResetRequestState, e: ResetRequestEvent) -> (r: (ResetRequestState, ResetRequestAction))
    requires
        reset_request_expects(s, e),
    ensures
        reset_request_spec(s, e, r),
{
    match s {
        ResetRequestState::Start { org, email, base_url } => match Email::parse(email.as_str()) {
            Ok(em) => (ResetRequestState::FindingUser { base_url }, ResetRequestAction::FindUser { org, email: em }),
            Err(_) => (ResetRequestState::Finished, ResetRequestAction::Done(Ok(()))),
        },
        ResetRequestState::FindingUser { base_url } => match e {
            ResetRequestEvent::UserFound(Err(err)) => (
                ResetRequestState::Finished,
                ResetRequestAction::Done(Err(AppError::Domain(DomainError::from(err)))),
            ),
            ResetRequestEvent::UserFound(Ok(found)) => match reset_target(found) {
                Some(u) => (ResetRequestState::Minting { user: u, base_url }, ResetRequestAction::MintToken),
                None => (ResetRequestState::Finished, ResetRequestAction::Done(Ok(()))),
            },
            _ => {
                assert(false);
                (ResetRequestState::Finished, ResetRequestAction::Done(Ok(())))
            },
        },
        ResetRequestState::Minting { user, base_url } => match e {
            ResetRequestEvent::MintFailed(err) => (
                ResetRequestState::Finished,
                ResetRequestAction::Done(Err(AppError::Domain(err))),
            ),
            ResetRequestEvent::Minted { token, id, now } => {
                let hash = api_token_hash(token.as_str());
                let record = reset_token_record(id, user.id, hash, now);
                let uid = user.id;
                (
                    ResetRequestState::Clearing { user, record, full: token, base_url },
                    ResetRequestAction::DeleteTokensFor(uid),
                )
            },
            _ => {
                assert(false);
                (ResetRequestState::Finished, ResetRequestAction::Done(Ok(())))
            },
        },
        ResetRequestState::Clearing { user, record, full, base_url } => (
            ResetRequestState::Storing { user, full, base_url },
            ResetRequestAction::Insert(record),
        ),
        ResetRequestState::Storing { user, full, base_url } => match e {
            ResetRequestEvent::Stored(Err(err)) => (
                ResetRequestState::Finished,
                ResetRequestAction::Done(Err(AppError::Domain(DomainError::from(err)))),
            ),
            ResetRequestEvent::Stored(Ok(())) => {
                let org = user.org_id;
                (ResetRequestState::Naming { user, full, base_url }, ResetRequestAction::LoadOrgName(org))
            },
            _ => {
                assert(false);
                (ResetRequestState::Finished, ResetRequestAction::Done(Ok(())))
            },
        },
        ResetRequestState::Naming { user, full, base_url } => match e {
            ResetRequestEvent::OrgName(name) => {
                let org_name = org_display_name(name);
                let link = reset_link(base_url.as_str(), full.as_str());
                let mail = reset_email(&user, org_name.as_str(), link.as_str());
                (ResetRequestState::Sending, ResetRequestAction::Send(mail))
            },
            _ => {
                assert(false);
                (ResetRequestState::Finished, ResetRequestAction::Done(Ok(())))
            },
        },
        ResetRequestState::Sending => (ResetRequestState::Finished, ResetRequestAction::Done(Ok(()))),
        ResetRequestState::Finished => {
            assert(false);
            (ResetRequestState::Finished, ResetRequestAction::Done(Ok(())))
        },
    }
}

/// A reset request never answers with an error about the email or the
/// account: every error it answers comes from a failed lookup, mint or store,
/// and every other answer is `Ok(())`.
pub proof fn reset_request_hides_accounts(
    s: ResetRequestState,
    e: ResetRequestEvent,
    r: (ResetRequestState, ResetRequestAction),
)
    requires
        reset_request_expects(s, e),
        reset_request_spec(s, e, r),
        r.1 is Done,
    ensures
        r.1 == ResetRequestAction::Done(Ok(())) || e matches ResetRequestEvent::UserFound(Err(_))
            || e is MintFailed || e matches ResetRequestEvent::Stored(Err(_)),
{
}

/// A reset request writes in order: the earlier tokens are deleted right
/// after minting, the new record is stored only after that deletion, and the
/// mail goes out only after the record was stored.
pub proof fn reset_request_write_order(
    s: ResetRequestState,
    e: ResetRequestEvent,
    r: (ResetRequestState, ResetRequestAction),
)
    requires
        reset_request_expects(s, e),
        reset_request_spec(s, e, r),
    ensures
        r.1 is DeleteTokensFor ==> s is Minting && e is Minted,
        r.1 is Insert ==> s is Clearing,
        r.0 is Clearing ==> s is Minting,
        r.1 is Send ==> s is Naming,
        r.0 is Naming ==> s is Storing && e matches ResetRequestEvent::Stored(Ok(_)),
{
}

} // verus!
