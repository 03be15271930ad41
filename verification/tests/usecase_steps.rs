use madespace_core::entities::api_key::Scope;
use madespace_core::entities::audit::AuditEvent;
use madespace_core::entities::email::Email;
use madespace_core::entities::permission::{PermissionCategory, PermissionMatrix, PermissionState};
use madespace_core::entities::role::{BuiltinRole, Role};
use madespace_core::entities::user::{User, UserStatus};
use madespace_core::error::DomainError;
use madespace_core::ids::{ApiKeyId, AuditEventId, InviteTokenId, OrgId, PasswordResetTokenId, RoleId, SessionId, UserId};
use madespace_core::infra::tokens::api_token_hash;
use madespace_core::ports::{ApiToken, AuditQuery};
use madespace_core::seed::{default_groups, default_matrix_cells};
use madespace_core::usecases::api_keys::{join_scopes, key_request, plan_api_key};
use madespace_core::usecases::audit::{csv_field, export_query, render_audit_csv, search_query};
use madespace_core::usecases::auth::{login_candidate, login_outcome, new_session, org_display_name, reset_link};
use madespace_core::usecases::ctx::ActorContext;
use madespace_core::usecases::error::AppError;
use madespace_core::usecases::roles::{custom_role_name, slugify};
use madespace_core::usecases::users::{
    derive_name, plan_invite, plan_role_change, plan_status_change, role_change_needs_admin_count,
    role_key_missing, user_missing,
    RoleChange,
};

// ---- audit CSV ----

#[test]
fn csv_field_quotes_when_needed() {
    assert_eq!(csv_field("plain"), "plain");
    assert_eq!(csv_field("a,b"), "\"a,b\"");
    assert_eq!(csv_field("say \"hi\""), "\"say \"\"hi\"\"\"");
}

#[test]
fn csv_field_quotes_line_breaks() {
    assert_eq!(csv_field("two\nlines"), "\"two\nlines\"");
    assert_eq!(csv_field(""), "");
}

fn event(ts: i128, target: Option<&str>) -> AuditEvent {
    AuditEvent {
        id: AuditEventId::from_u128(1),
        org_id: OrgId::from_u128(1),
        ts,
        actor_id: UserId::from_u128(1),
        actor_name: "Elena Ruiz".into(),
        actor_role_key: "owner".into(),
        action: "role.assign".into(),
        category: PermissionCategory::Roles,
        target: target.map(|t| t.to_string()),
        before: Some("Member".into()),
        after: Some("Admin, acting".into()),
        ip: None,
    }
}

#[test]
fn audit_csv_has_header_and_one_line_per_event() {
    let csv = render_audit_csv(&[event(0, Some("Aoife")), event(1_500_000_000, None)]);
    assert_eq!(
        csv,
        "timestamp,actor,role,action,category,target,before,after,ip\n\
         1970-01-01T00:00:00Z,Elena Ruiz,owner,role.assign,roles,Aoife,Member,\"Admin, acting\",\n\
         1970-01-01T00:00:01.5Z,Elena Ruiz,owner,role.assign,roles,,Member,\"Admin, acting\",\n"
    );
    assert_eq!(
        render_audit_csv(&[]),
        "timestamp,actor,role,action,category,target,before,after,ip\n"
    );
}

#[test]
fn audit_queries_default_and_export_limits() {
    let q = search_query(AuditQuery::default());
    assert_eq!(q.limit, 200);
    assert_eq!(q.offset, 0);
    let q = search_query(AuditQuery { limit: 25, offset: 50, ..AuditQuery::default() });
    assert_eq!((q.limit, q.offset), (25, 50));
    let e = export_query(AuditQuery {
        category: Some(PermissionCategory::Users),
        query: Some("elena".into()),
        limit: 10,
        offset: 30,
    });
    assert_eq!((e.limit, e.offset), (100_000, 0));
    assert_eq!(e.category, Some(PermissionCategory::Users));
    assert_eq!(e.query.as_deref(), Some("elena"));
}

// ---- roles ----

#[test]
fn slugify_makes_role_keys() {
    assert_eq!(slugify("Stager Pro"), "stager_pro");
    assert_eq!(slugify("  Lead -- Photographer!  "), "lead_photographer");
    assert_eq!(slugify("__x__"), "x");
    assert_eq!(slugify("!!!"), "");
}

#[test]
fn custom_role_name_requires_text() {
    let (name, key) = custom_role_name("  Stager Pro ").unwrap();
    assert_eq!(name, "Stager Pro");
    assert_eq!(key, "stager_pro");
    match custom_role_name("   ") {
        Err(AppError::Domain(DomainError::Invalid(m))) => assert_eq!(m, "role name is required"),
        other => panic!("unexpected {other:?}"),
    }
}

// ---- users ----

fn org() -> OrgId {
    OrgId::from_u128(100)
}

fn role(n: u128, b: BuiltinRole) -> Role {
    Role {
        id: RoleId::from_u128(n),
        org_id: org(),
        key: b.key().into(),
        name: b.display_name().into(),
        builtin: Some(b),
        is_column: b.is_column(),
        base_role_id: None,
        rank: b.rank(),
    }
}

fn user(n: u128, email: &str, role_id: RoleId, status: UserStatus) -> User {
    User {
        id: UserId::from_u128(n),
        org_id: org(),
        email: Email::parse(email).unwrap(),
        name: format!("User {n}"),
        role_id,
        status,
        scope: None,
        password_hash: Some("$argon2id$x".into()),
        created_at: 1,
        last_active_at: None,
    }
}

fn ctx_for(b: BuiltinRole, n: u128) -> ActorContext {
    let ids: Vec<RoleId> = (1..=5).map(RoleId::from_u128).collect();
    let cells = default_matrix_cells(&ids);
    let roles: Vec<(RoleId, i16)> = [
        BuiltinRole::Owner,
        BuiltinRole::Admin,
        BuiltinRole::Manager,
        BuiltinRole::Member,
        BuiltinRole::Viewer,
    ]
    .iter()
    .enumerate()
    .map(|(i, b)| (ids[i], b.rank()))
    .collect();
    let r = role(n, b);
    ActorContext {
        actor: user(900, "actor@madespace.co", r.id, UserStatus::Active),
        actor_role: r,
        matrix: PermissionMatrix { groups: default_groups(), roles, cells },
        ip: None,
    }
}

#[test]
fn derive_name_title_cases_the_local_part() {
    assert_eq!(derive_name(&Email::parse("aoife.brennan@madespace.co").unwrap()), "Aoife Brennan");
    assert_eq!(derive_name(&Email::parse("j_doe..x@madespace.co").unwrap()), "J Doe X");
}

#[test]
fn invite_respects_actor_rank() {
    let ctx = ctx_for(BuiltinRole::Admin, 2);
    let member = role(4, BuiltinRole::Member);
    let (u, d) = plan_invite(
        &ctx,
        Email::parse("aoife.brennan@madespace.co").unwrap(),
        &member,
        Some("Dublin".into()),
        UserId::from_u128(5),
        77,
    )
    .unwrap();
    assert_eq!(u.status, UserStatus::Invited);
    assert_eq!(u.name, "Aoife Brennan");
    assert_eq!(u.org_id, org());
    assert!(u.password_hash.is_none());
    assert_eq!(d.action, "user.invite");
    assert_eq!(d.after.as_deref(), Some("Member · Dublin"));
    let owner = role(1, BuiltinRole::Owner);
    let r = plan_invite(
        &ctx,
        Email::parse("x@madespace.co").unwrap(),
        &owner,
        None,
        UserId::from_u128(6),
        77,
    );
    assert!(matches!(r, Err(AppError::Domain(DomainError::PrivilegeEscalation(_)))));
}

#[test]
fn role_change_guards_and_no_op() {
    let ctx = ctx_for(BuiltinRole::Owner, 1);
    let admin = role(2, BuiltinRole::Admin);
    let member = role(4, BuiltinRole::Member);
    let target = user(5, "a@madespace.co", admin.id, UserStatus::Active);
    let r = plan_role_change(&ctx, target, &admin, &member, member.id, 1);
    assert!(matches!(r, Err(AppError::Domain(DomainError::LastAdminProtected(_)))));

    let target = user(5, "a@madespace.co", admin.id, UserStatus::Active);
    match plan_role_change(&ctx, target, &admin, &member, member.id, 2).unwrap() {
        RoleChange::Changed(u, d) => {
            assert_eq!(u.role_id, member.id);
            assert_eq!(d.action, "role.assign");
            assert_eq!(d.before.as_deref(), Some("Admin"));
            assert_eq!(d.after.as_deref(), Some("Member"));
        }
        other => panic!("unexpected {other:?}"),
    }

    let target = user(5, "a@madespace.co", member.id, UserStatus::Active);
    assert!(matches!(
        plan_role_change(&ctx, target, &member, &member, member.id, 1).unwrap(),
        RoleChange::Unchanged(_)
    ));
}

#[test]
fn status_change_protects_last_admin() {
    let admin = role(2, BuiltinRole::Admin);
    let target = user(5, "a@madespace.co", admin.id, UserStatus::Active);
    assert!(matches!(
        plan_status_change(target, &admin, UserStatus::Deactivated, 1, 9),
        Err(AppError::Domain(DomainError::LastAdminProtected(_)))
    ));
    let target = user(5, "a@madespace.co", admin.id, UserStatus::Deactivated);
    let (u, d) = plan_status_change(target, &admin, UserStatus::Active, 1, 9).unwrap();
    assert_eq!(u.status, UserStatus::Active);
    assert_eq!(u.last_active_at, Some(9));
    assert_eq!(d.action, "user.reactivate");
    assert_eq!(d.before.as_deref(), Some("deactivated"));
    assert_eq!(d.after.as_deref(), Some("active"));
}

#[test]
fn capability_checks_follow_the_matrix() {
    let member = ctx_for(BuiltinRole::Member, 4);
    match member.require("users.invite") {
        Err(AppError::Domain(DomainError::Forbidden(m))) => {
            assert_eq!(m, "role 'member' may not users.invite")
        }
        other => panic!("unexpected {other:?}"),
    }
    assert!(member.require("users.edit").is_ok());
    assert!(member.require_on("users.edit", Some(UserId::from_u128(1))).is_err());
    let owner = ctx_for(BuiltinRole::Owner, 1);
    assert!(owner.require("org.delete").is_ok());
    let admin = ctx_for(BuiltinRole::Admin, 2);
    assert!(admin.require("org.delete").is_err());
}

// ---- auth ----

#[test]
fn login_failures_are_all_unauthorized() {
    assert!(matches!(login_candidate(None), Err(AppError::Unauthorized)));
    let mut no_pw = user(5, "a@madespace.co", RoleId::from_u128(4), UserStatus::Active);
    no_pw.password_hash = None;
    assert!(matches!(login_candidate(Some(no_pw)), Err(AppError::Unauthorized)));
    let active = user(5, "a@madespace.co", RoleId::from_u128(4), UserStatus::Active);
    assert!(matches!(login_outcome(active, false), Err(AppError::Unauthorized)));
    let off = user(5, "a@madespace.co", RoleId::from_u128(4), UserStatus::Deactivated);
    assert!(matches!(login_outcome(off, true), Err(AppError::Unauthorized)));
    let ok = user(5, "a@madespace.co", RoleId::from_u128(4), UserStatus::Active);
    assert_eq!(login_outcome(ok, true).unwrap().id, UserId::from_u128(5));
}

#[test]
fn sessions_expire_at_their_deadline() {
    let s = new_session(SessionId::new("sid".into()), UserId::from_u128(5), 100, 50);
    assert_eq!(s.expires_at, 150);
    assert!(!s.is_expired(149));
    assert!(s.is_expired(150));
}

#[test]
fn reset_link_and_org_name() {
    assert_eq!(
        reset_link("https://app.madespace.co//", "tok123"),
        "https://app.madespace.co/reset-password?token=tok123"
    );
    assert_eq!(reset_link("", "t"), "/reset-password?token=t");
    assert_eq!(org_display_name(None), "the studio");
    assert_eq!(org_display_name(Some("Made Space".into())), "Made Space");
}

// ---- API keys ----

#[test]
fn key_requests_are_checked() {
    assert_eq!(key_request("  CI bot ", &vec![Scope::UsersView]).unwrap(), "CI bot");
    match key_request("   ", &vec![Scope::UsersView]) {
        Err(AppError::Domain(DomainError::Invalid(m))) => assert_eq!(m, "name is required"),
        other => panic!("unexpected {other:?}"),
    }
    match key_request("CI", &vec![]) {
        Err(AppError::Domain(DomainError::Invalid(m))) => assert_eq!(m, "select at least one scope"),
        other => panic!("unexpected {other:?}"),
    }
    assert_eq!(join_scopes(&vec![Scope::UsersView, Scope::AuditExport]), "users.view, audit.export");
    assert_eq!(join_scopes(&vec![]), "");
}

#[test]
fn permission_states_in_default_matrix() {
    let ctx = ctx_for(BuiltinRole::Owner, 1);
    assert_eq!(
        ctx.matrix.raw_state("roles.assign", RoleId::from_u128(2)),
        Some(PermissionState::Scope)
    );
}

#[test]
fn missing_entities_are_named_by_uuid() {
    match user_missing(UserId::from_u128(0x67e5504410b1426f9247bb680e5fe0c8)) {
        DomainError::NotFound(m) => assert_eq!(m, "user 67e55044-10b1-426f-9247-bb680e5fe0c8"),
        other => panic!("unexpected {other:?}"),
    }
    match user_missing(UserId::from_u128(1)) {
        DomainError::NotFound(m) => assert_eq!(m, "user 00000000-0000-0000-0000-000000000001"),
        other => panic!("unexpected {other:?}"),
    }
    match role_key_missing("stager") {
        DomainError::NotFound(m) => assert_eq!(m, "role 'stager'"),
        other => panic!("unexpected {other:?}"),
    }
}

#[test]
fn admin_count_is_needed_only_for_demotions_that_pass_escalation() {
    let admin_ctx = ctx_for(BuiltinRole::Admin, 2);
    let owner = role(1, BuiltinRole::Owner);
    let admin = role(2, BuiltinRole::Admin);
    let member = role(4, BuiltinRole::Member);
    assert!(role_change_needs_admin_count(&admin_ctx, &admin, &member));
    assert!(!role_change_needs_admin_count(&admin_ctx, &member, &admin));
    assert!(!role_change_needs_admin_count(&admin_ctx, &admin, &owner));
}

#[test]
fn app_error_messages() {
    assert_eq!(AppError::Unauthorized.message(), "unauthorized");
    assert_eq!(
        AppError::Domain(DomainError::Forbidden("role 'member' may not users.invite".into())).message(),
        "forbidden: role 'member' may not users.invite"
    );
}

#[test]
fn fresh_ids_are_version_4_uuids() {
    let values = [
        UserId::new().unwrap().0,
        RoleId::new().unwrap().0,
        OrgId::new().unwrap().0,
        ApiKeyId::new().unwrap().0,
        AuditEventId::new().unwrap().0,
        PasswordResetTokenId::new().unwrap().0,
        InviteTokenId::new().unwrap().0,
    ];
    for v in values {
        assert_eq!((v >> 76) & 0xf, 4);
        assert_eq!((v >> 62) & 3, 2);
    }
    assert_ne!(UserId::new().unwrap(), UserId::new().unwrap());
}

#[test]
fn created_key_stores_only_the_token_hash() {
    let ctx = ctx_for(BuiltinRole::Admin, 2);
    let token = ApiToken { full: "ms_live_abcdef0123456789".into(), prefix: "ms_live_abcd".into() };
    let (created, draft) = plan_api_key(
        &ctx,
        ApiKeyId::from_u128(5),
        "CI".into(),
        token,
        vec![Scope::UsersView],
        42,
    );
    assert_eq!(created.token, "ms_live_abcdef0123456789");
    assert_eq!(created.key.token_hash, api_token_hash("ms_live_abcdef0123456789"));
    assert_ne!(created.key.token_hash, created.token);
    assert_eq!(created.key.token_hash.len(), 64);
    assert_eq!(created.key.prefix, "ms_live_abcd");
    assert_eq!(created.key.org_id, ctx.actor.org_id);
    assert_eq!(draft.action, "key.create");
}
