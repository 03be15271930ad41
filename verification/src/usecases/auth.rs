//! Authentication: password login, sessions, invitations and password
//! resets. Every sign-in failure collapses to `Unauthorized`, so a caller
//! never learns whether an email exists.

use crate::entities::password_reset_token::PasswordResetToken;
use crate::entities::session::Session;
use crate::entities::user::{User, UserStatus};
use crate::entities::Timestamp;
use crate::error::DomainError;
use crate::ids::{PasswordResetTokenId, SessionId, UserId};
use crate::ports::OutgoingEmail;
use crate::text::owned;
use crate::usecases::error::AppError;
use vstd::prelude::*;

verus! {

/// How long a password-reset link stays valid: one hour, in nanoseconds.
pub const RESET_TTL: i128 = 3_600_000_000_000;

/// A new session for `user_id`, valid from `now` for `ttl` nanoseconds.
pub fn new_session(id: SessionId, user_id: UserId, now: Timestamp, ttl: i128) -> (s: Session)
    requires
        i128::MIN <= now + ttl <= i128::MAX,
    ensures
        s.id == id,
        s.user_id == user_id,
        s.created_at == now,
        s.expires_at == now + ttl,
{
    Session { id, user_id, created_at: now, expires_at: now + ttl }
}

/// The user signing in and their stored password hash: an unknown user, or
/// one without a password, is `Unauthorized`.
pub fn login_candidate(found: Option<User>) -> (r: Result<(User, String), AppError>)
    ensures
        match found {
            Some(u) => match u.password_hash {
                Some(h) => r == Ok::<(User, String), AppError>((u, h)),
                None => r == Err::<(User, String), AppError>(AppError::Unauthorized),
            },
            None => r == Err::<(User, String), AppError>(AppError::Unauthorized),
        },
{
    match found {
        Some(u) => {
            let h = match &u.password_hash {
                Some(h) => h.clone(),
                None => return Err(AppError::Unauthorized),
            };
            Ok((u, h))
        },
        None => Err(AppError::Unauthorized),
    }
}

/// The signed-in user: a wrong password, or an account that is not active,
/// is `Unauthorized`.
pub fn login_outcome(user: User, password_ok: bool) -> (r: Result<User, AppError>)
    ensures
        r is Ok <==> password_ok && user.status == UserStatus::Active,
        r matches Ok(u) ==> u == user,
        r is Err ==> r == Err::<User, AppError>(AppError::Unauthorized),
{
    if !password_ok {
        return Err(AppError::Unauthorized);
    }
    if !user.is_active() {
        return Err(AppError::Unauthorized);
    }
    Ok(user)
}

/// An invited user who accepted: the new password hash, active, last active
/// now.
pub fn activate_invited(user: User, password_hash: String, now: Timestamp) -> (u: User)
    ensures
        u == (User {
            password_hash: Some(password_hash),
            status: UserStatus::Active,
            last_active_at: Some(now),
            ..user
        }),
{
    let mut u = user;
    u.password_hash = Some(password_hash);
    u.status = UserStatus::Active;
    u.last_active_at = Some(now);
    u
}

/// A user with a new password hash, last active now.
pub fn with_new_password(user: User, password_hash: String, now: Timestamp) -> (u: User)
    ensures
        u == (User { password_hash: Some(password_hash), last_active_at: Some(now), ..user }),
{
    let mut u = user;
    u.password_hash = Some(password_hash);
    u.last_active_at = Some(now);
    u
}

/// Who a reset request is for: only an active account resets a password;
/// anyone else gets no token and no email.
pub fn reset_target(found: Option<User>) -> (r: Option<User>)
    ensures
        r == (match found {
            Some(u) => if u.status == UserStatus::Active {
                Some(u)
            } else {
                None
            },
            None => None,
        }),
{
    match found {
        Some(u) => if u.is_active() {
            Some(u)
        } else {
            None
        },
        None => None,
    }
}

/// The stored reset token: only the hash, valid for an hour from `now`.
pub fn reset_token_record(id: PasswordResetTokenId, user_id: UserId, token_hash: String, now: Timestamp) -> (t: PasswordResetToken)
    requires
        now + RESET_TTL <= i128::MAX,
    ensures
        t == (PasswordResetToken { id, user_id, token_hash, created_at: now, expires_at: (now + RESET_TTL) as i128 }),
{
    PasswordResetToken { id, user_id, token_hash, created_at: now, expires_at: now + RESET_TTL }
}

/// The text without trailing `/` characters.
pub open spec fn trim_slashes_end(s: Seq<char>) -> Seq<char>
    decreases s.len(),
{
    if s.len() > 0 && s.last() == '/' {
        trim_slashes_end(s.drop_last())
    } else {
        s
    }
}

/// The reset link: the app base URL without trailing slashes, then
/// `/reset-password?token=` and the token.
pub open spec fn reset_link_of(base: Seq<char>, token: Seq<char>) -> Seq<char> {
    trim_slashes_end(base) + "/reset-password?token="@ + token
}

/// Build the reset link.
pub fn reset_link(base: &str, token: &str) -> (r: String)
    ensures
        r@ == reset_link_of(base@, token@),
{
    let mut end = base.unicode_len();
    assert(base@.subrange(0, end as int) == base@);
    while end > 0
        invariant
            end <= base@.len(),
            trim_slashes_end(base@.subrange(0, end as int)) == trim_slashes_end(base@),
        ensures
            trim_slashes_end(base@) == base@.subrange(0, end as int),
        decreases end,
    {
        if base.get_char(end - 1) != '/' {
            break;
        }
        assert(base@.subrange(0, end as int).drop_last() == base@.subrange(0, end - 1));
        end = end - 1;
    }
    let mut r = owned(base.substring_char(0, end));
    r.append("/reset-password?token=");
    r.append(token);
    r
}

/// The organization name used in reset emails: its name, or "the studio".
pub fn org_display_name(name: Option<String>) -> (r: String)
    ensures
        r@ == (match name {
            Some(n) => n@,
            None => "the studio"@,
        }),
{
    match name {
        Some(n) => n,
        None => owned("the studio"),
    }
}

/// The body of the reset email.
pub open spec fn reset_body(name: Seq<char>, org_name: Seq<char>, link: Seq<char>) -> Seq<char> {
    "Hi "@ + name + ",\n\nWe received a request to reset your "@ + org_name
        + " password. Choose a new one here:\n\n"@ + link
        + "\n\nThis link expires in 1 hour. If you didn't request this, you can safely ignore this email.\n\n— "@
        + org_name
}

/// The password-reset email to `user`.
pub fn reset_email(user: &User, org_name: &str, link: &str) -> (m: OutgoingEmail)
    ensures
        m.to_address@ == user.email@,
        m.to_name == user.name,
        m.subject@ == "Reset your "@ + org_name@ + " password"@,
        m.body@ == reset_body(user.name@, org_name@, link@),
{
    let mut subject = owned("Reset your ");
    subject.append(org_name);
    subject.append(" password");
    let mut body = owned("Hi ");
    body.append(user.name.as_str());
    body.append(",\n\nWe received a request to reset your ");
    body.append(org_name);
    body.append(" password. Choose a new one here:\n\n");
    body.append(link);
    body.append("\n\nThis link expires in 1 hour. If you didn't request this, you can safely ignore this email.\n\n— ");
    body.append(org_name);
    OutgoingEmail { to_address: owned(user.email.as_str()), to_name: user.name.clone(), subject, body }
}

} // verus!
