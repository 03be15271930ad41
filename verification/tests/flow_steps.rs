use madespace_core::entities::email::Email;
use madespace_core::entities::permission::PermissionMatrix;
use madespace_core::entities::session::Session;
use madespace_core::entities::organization::Organization;
use madespace_core::entities::role::{BuiltinRole, Role};
use madespace_core::entities::user::{User, UserStatus};
use madespace_core::error::{DomainError, RepoError};
use madespace_core::ids::{OrgId, PasswordResetTokenId, RoleId, SessionId, UserId};
use madespace_core::infra::mappers::{org_from_row, OrgRow};
use madespace_core::infra::tokens::api_token_hash;
use madespace_core::usecases::actor::{resolve_step, ResolveAction, ResolveEvent, ResolveState};
use madespace_core::usecases::credential_flows::{
    accept_invite_step, reset_password_step, CredentialAction, CredentialEvent, CredentialState, TokenRecord,
};
use madespace_core::usecases::error::AppError;
use madespace_core::usecases::login::{login_step, LoginAction, LoginEvent, LoginState};
use madespace_core::usecases::org::plan_transfer;
use madespace_core::usecases::reset_request::{
    reset_request_step, ResetRequestAction, ResetRequestEvent, ResetRequestState,
};
use madespace_core::usecases::roles::slugify;

fn studio() -> Organization {
    org_from_row(OrgRow {
        id: 100,
        name: "Made Space".into(),
        domain: None,
        owner_id: Some(1),
        pending_owner_id: None,
        branding_accent: "#D6B982".into(),
        mfa_enabled: false,
        mfa_method: "totp".into(),
        mfa_enforce: "admins".into(),
        pw_min_length: 8,
        pw_require_number: false,
        pw_require_symbol: false,
        pw_rotation_days: None,
        sso_enabled: false,
        sso_provider: "oidc".into(),
        sso_url: None,
    })
    .unwrap()
}

fn member(n: u128, role_id: RoleId, status: UserStatus) -> User {
    User {
        id: UserId::from_u128(n),
        org_id: OrgId::from_u128(100),
        email: Email::parse("kai@madespace.co").unwrap(),
        name: "Kai".into(),
        role_id,
        status,
        scope: None,
        password_hash: Some("$argon2id$old".into()),
        created_at: 1,
        last_active_at: None,
    }
}

fn builtin(n: u128, b: BuiltinRole) -> Role {
    Role {
        id: RoleId::from_u128(n),
        org_id: OrgId::from_u128(100),
        key: b.key().into(),
        name: b.display_name().into(),
        builtin: Some(b),
        is_column: b.is_column(),
        base_role_id: None,
        rank: b.rank(),
    }
}

// ---- roles ----

#[test]
fn slugify_keeps_only_ascii_letters_and_digits() {
    assert_eq!(slugify("Café"), "caf");
    assert_eq!(slugify("Über Team 2"), "ber_team_2");
    assert_eq!(slugify("Stager"), "stager");
}

// ---- ownership transfer ----

#[test]
fn transfer_goes_only_to_an_active_admin() {
    let admin_role = builtin(2, BuiltinRole::Admin);
    let member_role = builtin(4, BuiltinRole::Member);
    let admin = member(7, admin_role.id, UserStatus::Active);
    let (org, _) = plan_transfer(studio(), &admin, &admin_role, admin.id).unwrap();
    assert_eq!(org.pending_owner_id, Some(admin.id));

    let plain = member(8, member_role.id, UserStatus::Active);
    match plan_transfer(studio(), &plain, &member_role, plain.id) {
        Err(AppError::Domain(DomainError::Invalid(m))) => assert_eq!(m, "target user is not an admin"),
        other => panic!("unexpected {other:?}"),
    }
    let gone = member(9, admin_role.id, UserStatus::Deactivated);
    match plan_transfer(studio(), &gone, &admin_role, gone.id) {
        Err(AppError::Domain(DomainError::Invalid(m))) => assert_eq!(m, "target user is not active"),
        other => panic!("unexpected {other:?}"),
    }
}

// ---- password-reset request ----

fn start(email: &str) -> ResetRequestState {
    ResetRequestState::Start {
        org: OrgId::from_u128(100),
        email: email.into(),
        base_url: "https://app.madespace.co/".into(),
    }
}

#[test]
fn reset_request_for_malformed_email_ends_quietly() {
    let (s, a) = reset_request_step(start("not-an-email"), ResetRequestEvent::Begin);
    assert!(matches!(s, ResetRequestState::Finished));
    assert!(matches!(a, ResetRequestAction::Done(Ok(()))));
}

#[test]
fn reset_request_for_unknown_or_inactive_user_ends_quietly() {
    let (s, a) = reset_request_step(start("kai@madespace.co"), ResetRequestEvent::Begin);
    assert!(matches!(a, ResetRequestAction::FindUser { .. }));
    let (_, a) = reset_request_step(s, ResetRequestEvent::UserFound(Ok(None)));
    assert!(matches!(a, ResetRequestAction::Done(Ok(()))));

    let (s, _) = reset_request_step(start("kai@madespace.co"), ResetRequestEvent::Begin);
    let invited = member(7, RoleId::from_u128(4), UserStatus::Invited);
    let (_, a) = reset_request_step(s, ResetRequestEvent::UserFound(Ok(Some(invited))));
    assert!(matches!(a, ResetRequestAction::Done(Ok(()))));

    let (s, _) = reset_request_step(start("kai@madespace.co"), ResetRequestEvent::Begin);
    let (_, a) = reset_request_step(s, ResetRequestEvent::UserFound(Err(RepoError::Other("down".into()))));
    assert!(matches!(a, ResetRequestAction::Done(Err(_))));
}

#[test]
fn reset_request_for_active_user_clears_stores_then_mails() {
    let kai = member(7, RoleId::from_u128(4), UserStatus::Active);
    let (s, _) = reset_request_step(start("Kai@MadeSpace.co"), ResetRequestEvent::Begin);
    let (s, a) = reset_request_step(s, ResetRequestEvent::UserFound(Ok(Some(kai.clone()))));
    assert!(matches!(a, ResetRequestAction::MintToken));
    let (s, a) = reset_request_step(
        s,
        ResetRequestEvent::Minted {
            token: "tok123".into(),
            id: PasswordResetTokenId::from_u128(55),
            now: 1_000,
        },
    );
    match a {
        ResetRequestAction::DeleteTokensFor(id) => assert_eq!(id, kai.id),
        other => panic!("unexpected {other:?}"),
    }
    let (s, a) = reset_request_step(s, ResetRequestEvent::Cleared);
    match a {
        ResetRequestAction::Insert(record) => {
            assert_eq!(record.id, PasswordResetTokenId::from_u128(55));
            assert_eq!(record.user_id, kai.id);
            assert_eq!(record.token_hash, api_token_hash("tok123"));
            assert_ne!(record.token_hash, "tok123");
            assert_eq!(record.created_at, 1_000);
            assert_eq!(record.expires_at, 1_000 + 3_600_000_000_000);
        }
        other => panic!("unexpected {other:?}"),
    }
    let (s, a) = reset_request_step(s, ResetRequestEvent::Stored(Ok(())));
    assert!(matches!(a, ResetRequestAction::LoadOrgName(_)));
    let (s, a) = reset_request_step(s, ResetRequestEvent::OrgName(None));
    match a {
        ResetRequestAction::Send(mail) => {
            assert_eq!(mail.to_address, "kai@madespace.co");
            assert_eq!(mail.subject, "Reset your the studio password");
            assert!(mail.body.contains("https://app.madespace.co/reset-password?token=tok123"));
        }
        other => panic!("unexpected {other:?}"),
    }
    // A failed delivery still answers Ok.
    let (_, a) = reset_request_step(s, ResetRequestEvent::Sent(false));
    assert!(matches!(a, ResetRequestAction::Done(Ok(()))));
}

// ---- token redemption ----

fn redeem_start() -> CredentialState {
    CredentialState::Start {
        token: "tok123".into(),
        password: "long-enough-pw".into(),
        ttl: 100,
    }
}

#[test]
fn missing_or_expired_tokens_are_unauthorized() {
    let (s, a) = reset_password_step(redeem_start(), CredentialEvent::Begin);
    match &a {
        CredentialAction::FindToken(h) => assert_eq!(h, &api_token_hash("tok123")),
        other => panic!("unexpected {other:?}"),
    }
    let (_, a) = reset_password_step(s, CredentialEvent::TokenFound { found: Ok(None), now: 5 });
    assert!(matches!(a, CredentialAction::Done(Err(AppError::Unauthorized))));

    let (s, _) = accept_invite_step(redeem_start(), CredentialEvent::Begin);
    let stale = TokenRecord { id: 31, user_id: UserId::from_u128(7), expires_at: 5 };
    let (s, a) = accept_invite_step(s, CredentialEvent::TokenFound { found: Ok(Some(stale)), now: 5 });
    assert!(matches!(a, CredentialAction::DeleteToken(31)));
    let (_, a) = accept_invite_step(s, CredentialEvent::ExpiredDeleted);
    assert!(matches!(a, CredentialAction::Done(Err(AppError::Unauthorized))));
}

#[test]
fn reset_revokes_sessions_before_signing_in() {
    let kai = member(7, RoleId::from_u128(4), UserStatus::Active);
    let live = TokenRecord { id: 31, user_id: kai.id, expires_at: 50 };
    let (s, _) = reset_password_step(redeem_start(), CredentialEvent::Begin);
    let (s, a) = reset_password_step(s, CredentialEvent::TokenFound { found: Ok(Some(live)), now: 10 });
    assert!(matches!(a, CredentialAction::FindUser(_)));
    let (s, a) = reset_password_step(s, CredentialEvent::UserFound(Ok(Some(kai.clone()))));
    assert!(matches!(a, CredentialAction::LoadOrg(_)));
    let (s, a) = reset_password_step(s, CredentialEvent::OrgFound(Ok(Some(studio()))));
    assert!(matches!(a, CredentialAction::HashPassword(_)));
    let (s, a) = reset_password_step(s, CredentialEvent::Hashed(Ok("$argon2id$new".into())));
    match &a {
        CredentialAction::UpdateUser(u) => {
            assert_eq!(u.password_hash.as_deref(), Some("$argon2id$new"));
            assert_eq!(u.last_active_at, Some(10));
        }
        other => panic!("unexpected {other:?}"),
    }
    let (s, a) = reset_password_step(s, CredentialEvent::Written(Ok(())));
    assert!(matches!(a, CredentialAction::DeleteTokensFor(_)));
    let (s, a) = reset_password_step(s, CredentialEvent::Written(Ok(())));
    assert!(matches!(a, CredentialAction::DeleteAllSessions(_)));
    let (s, a) = reset_password_step(s, CredentialEvent::Written(Ok(())));
    assert!(matches!(a, CredentialAction::MintSessionId));
    let (s, a) = reset_password_step(s, CredentialEvent::SessionMinted(Ok(SessionId("s1".into()))));
    match &a {
        CredentialAction::CreateSession(session) => {
            assert_eq!(session.user_id, kai.id);
            assert_eq!(session.expires_at, 110);
        }
        other => panic!("unexpected {other:?}"),
    }
    let (_, a) = reset_password_step(s, CredentialEvent::Written(Ok(())));
    match a {
        CredentialAction::Done(Ok((u, session))) => {
            assert_eq!(u.id, kai.id);
            assert_eq!(session.id, SessionId("s1".into()));
        }
        other => panic!("unexpected {other:?}"),
    }
}

#[test]
fn invite_activates_then_deletes_tokens_without_revoking_sessions() {
    let kai = member(7, RoleId::from_u128(4), UserStatus::Invited);
    let live = TokenRecord { id: 31, user_id: kai.id, expires_at: 50 };
    let (s, _) = accept_invite_step(redeem_start(), CredentialEvent::Begin);
    let (s, _) = accept_invite_step(s, CredentialEvent::TokenFound { found: Ok(Some(live)), now: 10 });
    let (s, _) = accept_invite_step(s, CredentialEvent::UserFound(Ok(Some(kai))));
    let (s, _) = accept_invite_step(s, CredentialEvent::OrgFound(Ok(Some(studio()))));
    let (s, a) = accept_invite_step(s, CredentialEvent::Hashed(Ok("$argon2id$new".into())));
    match &a {
        CredentialAction::UpdateUser(u) => assert_eq!(u.status, UserStatus::Active),
        other => panic!("unexpected {other:?}"),
    }
    let (s, a) = accept_invite_step(s, CredentialEvent::Written(Ok(())));
    assert!(matches!(a, CredentialAction::DeleteTokensFor(_)));
    let (_, a) = accept_invite_step(s, CredentialEvent::Written(Ok(())));
    assert!(matches!(a, CredentialAction::MintSessionId));
}

#[test]
fn invite_for_an_active_account_is_no_longer_valid() {
    let kai = member(7, RoleId::from_u128(4), UserStatus::Active);
    let live = TokenRecord { id: 31, user_id: kai.id, expires_at: 50 };
    let (s, _) = accept_invite_step(redeem_start(), CredentialEvent::Begin);
    let (s, _) = accept_invite_step(s, CredentialEvent::TokenFound { found: Ok(Some(live)), now: 10 });
    match accept_invite_step(s, CredentialEvent::UserFound(Ok(Some(kai)))).1 {
        CredentialAction::Done(Err(AppError::Domain(DomainError::Invalid(m)))) => {
            assert_eq!(m, "this invitation is no longer valid")
        }
        other => panic!("unexpected {other:?}"),
    }
}

// ---- sign-in ----

fn login_start(email: &str) -> LoginState {
    LoginState::Start {
        org: OrgId::from_u128(100),
        email: email.into(),
        password: "pw".into(),
        ttl: 100,
    }
}

#[test]
fn login_refusals_are_all_unauthorized() {
    let (_, a) = login_step(login_start("nope"), LoginEvent::Begin);
    assert!(matches!(a, LoginAction::Done(Err(AppError::Unauthorized))));

    let (s, _) = login_step(login_start("kai@madespace.co"), LoginEvent::Begin);
    let (_, a) = login_step(s, LoginEvent::UserFound(Ok(None)));
    assert!(matches!(a, LoginAction::Done(Err(AppError::Unauthorized))));

    let mut no_pw = member(7, RoleId::from_u128(4), UserStatus::Active);
    no_pw.password_hash = None;
    let (s, _) = login_step(login_start("kai@madespace.co"), LoginEvent::Begin);
    let (_, a) = login_step(s, LoginEvent::UserFound(Ok(Some(no_pw))));
    assert!(matches!(a, LoginAction::Done(Err(AppError::Unauthorized))));

    let (s, _) = login_step(login_start("kai@madespace.co"), LoginEvent::Begin);
    let kai = member(7, RoleId::from_u128(4), UserStatus::Active);
    let (s, _) = login_step(s, LoginEvent::UserFound(Ok(Some(kai))));
    let (_, a) = login_step(s, LoginEvent::Verified { ok: Ok(false), now: 5 });
    assert!(matches!(a, LoginAction::Done(Err(AppError::Unauthorized))));

    let (s, _) = login_step(login_start("kai@madespace.co"), LoginEvent::Begin);
    let gone = member(7, RoleId::from_u128(4), UserStatus::Deactivated);
    let (s, _) = login_step(s, LoginEvent::UserFound(Ok(Some(gone))));
    let (_, a) = login_step(s, LoginEvent::Verified { ok: Ok(true), now: 5 });
    assert!(matches!(a, LoginAction::Done(Err(AppError::Unauthorized))));
}

#[test]
fn login_with_the_right_password_starts_a_session() {
    let kai = member(7, RoleId::from_u128(4), UserStatus::Active);
    let (s, a) = login_step(login_start("KAI@madespace.co "), LoginEvent::Begin);
    match &a {
        LoginAction::FindUser { email, .. } => assert_eq!(email.as_str(), "kai@madespace.co"),
        other => panic!("unexpected {other:?}"),
    }
    let (s, a) = login_step(s, LoginEvent::UserFound(Ok(Some(kai.clone()))));
    match &a {
        LoginAction::VerifyPassword { password, hash } => {
            assert_eq!(password, "pw");
            assert_eq!(hash, "$argon2id$old");
        }
        other => panic!("unexpected {other:?}"),
    }
    let (s, a) = login_step(s, LoginEvent::Verified { ok: Ok(true), now: 5 });
    assert!(matches!(a, LoginAction::MintSessionId));
    let (s, a) = login_step(s, LoginEvent::SessionMinted(Ok(SessionId("s9".into()))));
    match &a {
        LoginAction::CreateSession(session) => {
            assert_eq!(session.created_at, 5);
            assert_eq!(session.expires_at, 105);
        }
        other => panic!("unexpected {other:?}"),
    }
    let (_, a) = login_step(s, LoginEvent::Written(Ok(())));
    match a {
        LoginAction::Done(Ok((u, session))) => {
            assert_eq!(u.id, kai.id);
            assert_eq!(session.user_id, kai.id);
        }
        other => panic!("unexpected {other:?}"),
    }
}

// ---- session resolution ----

fn resolve_start() -> ResolveState {
    ResolveState::Start { session_id: SessionId("s1".into()), ip: Some("10.0.0.1".into()) }
}

fn stored_session(expires_at: i128) -> Session {
    Session { id: SessionId("s1".into()), user_id: UserId::from_u128(7), created_at: 0, expires_at }
}

#[test]
fn expired_session_is_deleted_then_refused() {
    let (s, a) = resolve_step(resolve_start(), ResolveEvent::Begin);
    assert!(matches!(a, ResolveAction::FindSession(_)));
    let (s, a) = resolve_step(s, ResolveEvent::SessionFound { found: Ok(Some(stored_session(50))), now: 50 });
    match &a {
        ResolveAction::DeleteSession(id) => assert_eq!(id, &SessionId("s1".into())),
        other => panic!("unexpected {other:?}"),
    }
    let (_, a) = resolve_step(s, ResolveEvent::ExpiredDeleted);
    assert!(matches!(a, ResolveAction::Done(Err(AppError::Unauthorized))));

    let (s, _) = resolve_step(resolve_start(), ResolveEvent::Begin);
    let (_, a) = resolve_step(s, ResolveEvent::SessionFound { found: Ok(None), now: 1 });
    assert!(matches!(a, ResolveAction::Done(Err(AppError::Unauthorized))));
}

#[test]
fn live_session_of_an_active_user_resolves() {
    let role = builtin(4, BuiltinRole::Member);
    let kai = member(7, role.id, UserStatus::Active);
    let (s, _) = resolve_step(resolve_start(), ResolveEvent::Begin);
    let (s, a) = resolve_step(s, ResolveEvent::SessionFound { found: Ok(Some(stored_session(50))), now: 49 });
    assert!(matches!(a, ResolveAction::FindUser(_)));
    let (s, a) = resolve_step(s, ResolveEvent::UserFound(Ok(Some(kai.clone()))));
    match &a {
        ResolveAction::FindRole(id) => assert_eq!(*id, role.id),
        other => panic!("unexpected {other:?}"),
    }
    let (s, a) = resolve_step(s, ResolveEvent::RoleFound(Ok(Some(role))));
    assert!(matches!(a, ResolveAction::LoadMatrix(_)));
    let matrix = PermissionMatrix { groups: vec![], roles: vec![], cells: vec![] };
    let (_, a) = resolve_step(s, ResolveEvent::MatrixLoaded(Ok(matrix)));
    match a {
        ResolveAction::Done(Ok(ctx)) => {
            assert_eq!(ctx.actor.id, kai.id);
            assert_eq!(ctx.actor_role.key, "member");
            assert_eq!(ctx.ip.as_deref(), Some("10.0.0.1"));
        }
        other => panic!("unexpected {other:?}"),
    }
}

#[test]
fn deactivated_user_does_not_resolve() {
    let gone = member(7, RoleId::from_u128(4), UserStatus::Deactivated);
    let (s, _) = resolve_step(resolve_start(), ResolveEvent::Begin);
    let (s, _) = resolve_step(s, ResolveEvent::SessionFound { found: Ok(Some(stored_session(50))), now: 1 });
    let (_, a) = resolve_step(s, ResolveEvent::UserFound(Ok(Some(gone))));
    assert!(matches!(a, ResolveAction::Done(Err(AppError::Unauthorized))));
}
