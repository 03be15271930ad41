use madespace_core::entities::email::Email;
use madespace_core::entities::organization::{MfaEnforce, MfaMethod, SsoProvider};
use madespace_core::entities::permission::{PermissionCategory, PermissionState};
use madespace_core::entities::role::BuiltinRole;
use madespace_core::entities::user::UserStatus;
use madespace_core::entities::api_key::{ApiKeyStatus, Scope};
use madespace_core::error::{DomainError, RepoError};
use madespace_core::ids::{OrgId, RoleId, UserId};
use madespace_core::infra::db_error::{decode_err, map_db_error};
use madespace_core::infra::hasher::Argon2Hasher;
use madespace_core::infra::mappers::{
    api_key_from_row, audit_from_row, cell_state_from_row, mfa_enforce_str, mfa_method_str,
    org_from_row, parse_mfa_enforce, parse_mfa_method, parse_sso_provider, role_from_row,
    session_from_row, sso_provider_str, user_from_row, ApiKeyRow, AuditRow, CellRow, OrgRow,
    RoleRow, SessionRow, UserRow,
};
use madespace_core::infra::queries::{audit_page, like_pattern};
use madespace_core::infra::seed::{needs_seed, seed_hash_error, seed_owner_email, seed_plan, sole_org_id, SeedConfig};
use madespace_core::infra::tokens::{hex, RandTokenGenerator};
use madespace_core::ports::{PasswordHasher, TokenGenerator};
use madespace_core::usecases::org::summarize;

// ---- password hashing ----

#[test]
fn hashes_and_verifies_roundtrip() {
    let h = Argon2Hasher;
    let phc = h.hash("correct horse battery staple").unwrap();
    assert!(phc.starts_with("$argon2"));
    assert!(h.verify("correct horse battery staple", &phc).unwrap());
    assert!(!h.verify("wrong password", &phc).unwrap());
}

#[test]
fn two_hashes_of_one_password_differ_by_salt() {
    let h = Argon2Hasher;
    let a = h.hash("pw-Example-1!").unwrap();
    let b = h.hash("pw-Example-1!").unwrap();
    assert_ne!(a, b);
    assert!(h.verify("pw-Example-1!", &a).unwrap());
    assert!(h.verify("pw-Example-1!", &b).unwrap());
}

#[test]
fn malformed_hash_is_a_repository_error() {
    let h = Argon2Hasher;
    let err = h.verify("anything", "not a phc string").unwrap_err();
    match err {
        DomainError::Repo(m) => assert!(m.starts_with("bad hash: ")),
        other => panic!("unexpected {other:?}"),
    }
}

// ---- tokens ----

#[test]
fn session_ids_are_unique_and_long() {
    let g = RandTokenGenerator;
    let a = g.new_session_id().unwrap();
    let b = g.new_session_id().unwrap();
    assert_ne!(a, b);
    assert!(a.as_str().len() >= 40);
}

#[test]
fn api_token_prefix_matches_full() {
    let g = RandTokenGenerator;
    let t = g.new_api_token().unwrap();
    assert!(t.full.starts_with("ms_live_"));
    assert!(t.full.starts_with(&t.prefix));
    assert_eq!(g.hash_api_token(&t.full), g.hash_api_token(&t.full));
}

#[test]
fn api_token_shapes() {
    let g = RandTokenGenerator;
    let t = g.new_api_token().unwrap();
    // 24 bytes of URL-safe base64 without padding is 32 characters.
    assert_eq!(t.full.len(), 8 + 32);
    assert_eq!(t.prefix.len(), 12);
    assert!(t.full[8..].chars().all(|c| c.is_ascii_alphanumeric() || c == '-' || c == '_'));
    let s = g.new_session_id().unwrap();
    assert_eq!(s.as_str().len(), 43);
    let r = g.new_password_reset_token().unwrap();
    assert_eq!(r.len(), 43);
}

#[test]
fn token_hash_is_sha256_hex() {
    let g = RandTokenGenerator;
    assert_eq!(
        g.hash_api_token("abc"),
        "ba7816bf8f01cfea414140de5dae2223b00361a396177a9cb410ff61f20015ad"
    );
    assert_eq!(
        g.hash_api_token(""),
        "e3b0c44298fc1c149afbf4c8996fb92427ae41e4649b934ca495991b7852b855"
    );
    assert_ne!(g.hash_api_token("abc"), "abc");
}

#[test]
fn hex_is_lowercase_two_digits_per_byte() {
    assert_eq!(hex(&[0x00, 0x0f, 0xa0, 0xff]), "000fa0ff");
    assert_eq!(hex(&[]), "");
}

// ---- storage errors ----

#[test]
fn unique_violation_is_recognized() {
    let e = map_db_error(
        Some((Some("23505".to_string()), "duplicate key".to_string())),
        "error returned from database: duplicate key".to_string(),
    );
    assert!(matches!(e, RepoError::UniqueViolation(ref m) if m == "duplicate key"));
    let e = map_db_error(
        Some((Some("23503".to_string()), "fk".to_string())),
        "display".to_string(),
    );
    assert!(matches!(e, RepoError::Other(ref m) if m == "display"));
    let e = map_db_error(None, "pool timed out".to_string());
    assert!(matches!(e, RepoError::Other(ref m) if m == "pool timed out"));
}

#[test]
fn decode_error_quotes_the_value() {
    let e = decode_err("user status", "sleeping");
    assert!(matches!(e, RepoError::Other(ref m) if m == "invalid user status in database: \"sleeping\""));
}

// ---- row mappers ----

fn user_row(email: &str, status: &str) -> UserRow {
    UserRow {
        id: 11,
        org_id: 1,
        email: email.to_string(),
        name: "Elena".to_string(),
        role_id: 2,
        status: status.to_string(),
        scope: Some("Studio".to_string()),
        password_hash: None,
        created_at: 100,
        last_active_at: Some(200),
    }
}

#[test]
fn user_row_decodes() {
    let u = user_from_row(user_row("Elena@MadeSpace.co", "active")).unwrap();
    assert_eq!(u.id, UserId::from_u128(11));
    assert_eq!(u.email.as_str(), "elena@madespace.co");
    assert_eq!(u.status, UserStatus::Active);
    assert_eq!(u.role_id, RoleId::from_u128(2));
    assert_eq!(u.last_active_at, Some(200));
}

#[test]
fn user_written_as_row_reads_back() {
    let u = user_from_row(user_row("  Aoife.Brennan@MadeSpace.co", "invited")).unwrap();
    let row = UserRow {
        id: u.id.as_u128(),
        org_id: u.org_id.as_u128(),
        email: u.email.as_str().to_string(),
        name: u.name.clone(),
        role_id: u.role_id.as_u128(),
        status: u.status.as_str().to_string(),
        scope: u.scope.clone(),
        password_hash: u.password_hash.clone(),
        created_at: u.created_at,
        last_active_at: u.last_active_at,
    };
    let back = user_from_row(row).unwrap();
    assert_eq!(back.email, u.email);
    assert_eq!(back.status, UserStatus::Invited);
    assert_eq!(back.id, u.id);
    assert_eq!(back.name, u.name);
}

#[test]
fn user_row_with_bad_values_is_rejected() {
    assert!(matches!(
        user_from_row(user_row("not-an-email", "active")),
        Err(RepoError::Other(ref m)) if m == "invalid email in database: \"not-an-email\""
    ));
    assert!(matches!(
        user_from_row(user_row("a@b.co", "sleeping")),
        Err(RepoError::Other(ref m)) if m == "invalid user status in database: \"sleeping\""
    ));
}

#[test]
fn role_row_decodes_builtin_and_custom() {
    let r = role_from_row(RoleRow {
        id: 5,
        org_id: 1,
        key: "admin".into(),
        name: "Admin".into(),
        builtin: Some("admin".into()),
        is_column: true,
        base_role_id: None,
        rank: 50,
    })
    .unwrap();
    assert_eq!(r.builtin, Some(BuiltinRole::Admin));
    let c = role_from_row(RoleRow {
        id: 6,
        org_id: 1,
        key: "stager".into(),
        name: "Stager".into(),
        builtin: None,
        is_column: false,
        base_role_id: Some(5),
        rank: 30,
    })
    .unwrap();
    assert_eq!(c.builtin, None);
    assert_eq!(c.base_role_id, Some(RoleId::from_u128(5)));
    assert!(role_from_row(RoleRow {
        id: 7,
        org_id: 1,
        key: "x".into(),
        name: "X".into(),
        builtin: Some("emperor".into()),
        is_column: false,
        base_role_id: None,
        rank: 1,
    })
    .is_err());
}

fn org_row() -> OrgRow {
    OrgRow {
        id: 1,
        name: "Made Space".into(),
        domain: Some("madespace.co".into()),
        owner_id: Some(11),
        pending_owner_id: None,
        branding_accent: "#D6B982".into(),
        mfa_enabled: true,
        mfa_method: "totp".into(),
        mfa_enforce: "admins".into(),
        pw_min_length: 300,
        pw_require_number: true,
        pw_require_symbol: false,
        pw_rotation_days: Some(-5),
        sso_enabled: false,
        sso_provider: "oidc".into(),
        sso_url: None,
    }
}

#[test]
fn org_row_decodes_and_clamps() {
    let o = org_from_row(org_row()).unwrap();
    assert_eq!(o.owner_id, UserId::from_u128(11));
    assert_eq!(o.mfa.method, MfaMethod::Totp);
    assert_eq!(o.mfa.enforce, MfaEnforce::Admins);
    assert_eq!(o.sso.provider, SsoProvider::Oidc);
    assert_eq!(o.password_policy.min_length, 255);
    assert_eq!(o.password_policy.rotation_days, Some(0));
    assert_eq!(summarize(&o), "MFA on · pw min 255 · SSO off");
    let mut bad = org_row();
    bad.mfa_method = "pigeon".into();
    assert!(matches!(
        org_from_row(bad),
        Err(RepoError::Other(ref m)) if m == "invalid mfa method in database: \"pigeon\""
    ));
}

#[test]
fn org_settings_written_as_row_read_back() {
    let mut row = org_row();
    row.pw_min_length = i16::from(12u8);
    row.pw_rotation_days = Some(90u16 as i16);
    row.mfa_method = mfa_method_str(MfaMethod::Webauthn).to_string();
    row.mfa_enforce = mfa_enforce_str(MfaEnforce::Nobody).to_string();
    row.sso_provider = sso_provider_str(SsoProvider::Saml).to_string();
    let o = org_from_row(row).unwrap();
    assert_eq!(o.password_policy.min_length, 12);
    assert_eq!(o.password_policy.rotation_days, Some(90));
    assert_eq!(o.mfa.method, MfaMethod::Webauthn);
    assert_eq!(o.mfa.enforce, MfaEnforce::Nobody);
    assert_eq!(o.sso.provider, SsoProvider::Saml);
}

#[test]
fn key_scopes_written_as_texts_read_back() {
    let scopes = vec![Scope::OrgBranding, Scope::UsersEdit, Scope::RolesMatrix];
    let row = ApiKeyRow {
        id: 1,
        org_id: 1,
        name: "n".into(),
        prefix: "p".into(),
        token_hash: "h".into(),
        scopes: Some(scopes.iter().map(|s| Some(s.as_str().to_string())).collect()),
        status: ApiKeyStatus::Revoked.as_str().into(),
        created_at: 0,
        last_used_at: Some(3),
    };
    let k = api_key_from_row(row).unwrap();
    assert_eq!(k.scopes, scopes);
    assert_eq!(k.status, ApiKeyStatus::Revoked);
}

#[test]
fn settings_text_round_trips() {
    for m in [MfaMethod::Totp, MfaMethod::Webauthn, MfaMethod::Sms] {
        assert_eq!(parse_mfa_method(mfa_method_str(m)).unwrap(), m);
    }
    for e in [MfaEnforce::Nobody, MfaEnforce::Admins, MfaEnforce::All] {
        assert_eq!(parse_mfa_enforce(mfa_enforce_str(e)).unwrap(), e);
    }
    for p in [SsoProvider::Saml, SsoProvider::Oidc] {
        assert_eq!(parse_sso_provider(sso_provider_str(p)).unwrap(), p);
    }
    assert_eq!(mfa_enforce_str(MfaEnforce::Nobody), "none");
}

#[test]
fn audit_row_decodes() {
    let row = AuditRow {
        id: 3,
        org_id: 1,
        ts: 42,
        actor_id: 11,
        actor_name: "Elena".into(),
        actor_role_key: "owner".into(),
        action: "users.invite".into(),
        category: "users".into(),
        target: Some("a@b.co".into()),
        before_val: None,
        after_val: Some("member".into()),
        ip: None,
    };
    let e = audit_from_row(row).unwrap();
    assert_eq!(e.category, PermissionCategory::Users);
    assert_eq!(e.ts, 42);
    assert_eq!(e.after.as_deref(), Some("member"));
}

#[test]
fn api_key_row_keeps_known_scopes_only() {
    let row = ApiKeyRow {
        id: 9,
        org_id: 1,
        name: "CI".into(),
        prefix: "ms_live_abcd".into(),
        token_hash: "00".into(),
        scopes: Some(vec![Some("users.view".into()), None, Some("bogus".into()), Some("audit.export".into())]),
        status: "active".into(),
        created_at: 1,
        last_used_at: None,
    };
    let k = api_key_from_row(row).unwrap();
    assert_eq!(k.scopes, vec![Scope::UsersView, Scope::AuditExport]);
    assert_eq!(k.status, ApiKeyStatus::Active);
    let missing = ApiKeyRow {
        id: 9,
        org_id: 1,
        name: "CI".into(),
        prefix: "p".into(),
        token_hash: "00".into(),
        scopes: None,
        status: "active".into(),
        created_at: 1,
        last_used_at: None,
    };
    assert!(matches!(
        api_key_from_row(missing),
        Err(RepoError::Other(ref m)) if m == "invalid scopes in database: \"non-array\""
    ));
}

#[test]
fn session_and_cell_rows_decode() {
    let s = session_from_row(SessionRow {
        id: "tok".into(),
        user_id: 11,
        created_at: 1,
        expires_at: 2,
    })
    .unwrap();
    assert_eq!(s.id.as_str(), "tok");
    assert_eq!(s.expires_at, 2);
    let (k, r, st) = cell_state_from_row(CellRow {
        action_key: "users.invite".into(),
        role_id: 4,
        state: "scope".into(),
    })
    .unwrap();
    assert_eq!(k, "users.invite");
    assert_eq!(r, RoleId::from_u128(4));
    assert_eq!(st, PermissionState::Scope);
    assert!(cell_state_from_row(CellRow {
        action_key: "users.invite".into(),
        role_id: 4,
        state: "perhaps".into(),
    })
    .is_err());
}

// ---- seed ----

fn seed_cfg(email: &str) -> SeedConfig {
    SeedConfig {
        org_name: "Made Space".into(),
        org_domain: Some("madespace.co".into()),
        owner_email: email.into(),
        owner_name: "Elena".into(),
        owner_password: "Sufficient1!".into(),
    }
}

#[test]
fn seed_owner_email_is_validated() {
    let e = seed_owner_email(&seed_cfg(" Elena@MadeSpace.CO")).unwrap();
    assert_eq!(e.as_str(), "elena@madespace.co");
    assert!(matches!(
        seed_owner_email(&seed_cfg("nope")),
        Err(RepoError::Other(ref m)) if m == "invalid SEED_OWNER_EMAIL"
    ));
    let err = seed_hash_error(&DomainError::Repo("rng failed: x".into()));
    assert!(matches!(err, RepoError::Other(ref m) if m == "seed hash: repository error: rng failed: x"));
}

#[test]
fn seed_plan_builds_roles_matrix_and_owner() {
    let cfg = seed_cfg("elena@madespace.co");
    let email = Email::parse("elena@madespace.co").unwrap();
    let ids: Vec<RoleId> = (1..=7).map(RoleId::from_u128).collect();
    let plan = seed_plan(
        &cfg,
        email,
        "$argon2id$fake".into(),
        OrgId::from_u128(100),
        UserId::from_u128(200),
        &ids,
        5,
    );
    assert_eq!(plan.roles.len(), 7);
    assert_eq!(plan.roles[0].key, "owner");
    assert_eq!(plan.roles[0].rank, 60);
    assert_eq!(plan.roles[6].key, "service");
    assert!(!plan.roles[5].is_column);
    assert_eq!(plan.cells.len(), 16 * 5);
    assert_eq!(plan.cells[0].role_id, ids[0]);
    assert_eq!(plan.cells[0].state, PermissionState::Allow);
    assert_eq!(plan.owner.role_id, ids[0]);
    assert_eq!(plan.owner.status, UserStatus::Active);
    assert_eq!(plan.owner.scope.as_deref(), Some("Studio"));
    assert_eq!(plan.org.owner_id, UserId::from_u128(200));
    assert_eq!(plan.org.branding.accent_color, "#D6B982");
    assert_eq!(plan.org.password_policy.min_length, 12);
}

#[test]
fn sole_org_only_when_exactly_one() {
    assert_eq!(sole_org_id(&[]), None);
    assert_eq!(sole_org_id(&[OrgId::from_u128(1)]), Some(OrgId::from_u128(1)));
    assert_eq!(sole_org_id(&[OrgId::from_u128(1), OrgId::from_u128(2)]), None);
}

#[test]
fn listing_query_values() {
    assert_eq!(like_pattern("ElÉna"), "%eléna%");
    assert_eq!(like_pattern(""), "%%");
    let q = madespace_core::ports::AuditQuery { limit: 0, offset: -5, ..Default::default() };
    assert_eq!(audit_page(&q), (200, 0));
    let q = madespace_core::ports::AuditQuery { limit: 10, offset: 20, ..Default::default() };
    assert_eq!(audit_page(&q), (10, 20));
}

#[test]
fn seed_runs_only_on_an_empty_store() {
    assert!(needs_seed(0));
    assert!(!needs_seed(1));
}
