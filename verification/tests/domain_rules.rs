use madespace_core::entities::email::Email;
use madespace_core::entities::organization::PasswordPolicy;
use madespace_core::entities::permission::{
    Action, MatrixCell, PermissionCategory, PermissionGroup, PermissionMatrix, PermissionState,
};
use madespace_core::entities::role::{BuiltinRole, Role};
use madespace_core::error::{DomainError, PolicyViolation, RepoError};
use madespace_core::ids::{OrgId, RoleId, UserId};
use madespace_core::seed::{default_cells, default_groups, default_matrix_cells, default_state};
use madespace_core::services::authz::{can, AuthzInput, Decision};
use madespace_core::services::matrix_rules::{
    apply_click, cycle, is_locked, lock_reason, OWNER_ONLY_ACTIONS,
};
use madespace_core::services::password_policy::validate_password;
use madespace_core::services::role_guards::{
    build_custom_role_cells, check_last_admin, check_no_privilege_escalation,
};

/// The keys of the default action catalog, in catalog order.
const ROWS: [&str; 16] = [
    "users.invite",
    "users.view",
    "users.edit",
    "users.deactivate",
    "roles.edit",
    "roles.assign",
    "roles.owner",
    "roles.matrix",
    "org.branding",
    "org.auth",
    "org.transfer",
    "org.delete",
    "audit.view",
    "audit.export",
    "keys.manage",
    "keys.scope",
];

// ---- email ----

#[test]
fn accepts_and_lowercases_valid() {
    let e = Email::parse("  Elena@MadeSpace.CO ").unwrap();
    assert_eq!(e.as_str(), "elena@madespace.co");
    assert_eq!(e.local_part(), "elena");
}

#[test]
fn rejects_invalid() {
    for bad in ["nope", "a@b", "@b.co", "a@.co", "a b@c.co", "a@b c.co", "a@@b.co"] {
        assert!(Email::parse(bad).is_err(), "should reject {bad:?}");
    }
}

#[test]
fn email_without_dot_in_domain_is_invalid_with_message() {
    let err = Email::parse("someone@localhost").unwrap_err();
    assert!(matches!(err, DomainError::Invalid(_)));
}

#[test]
fn parsing_an_emails_text_gives_the_same_email() {
    for raw in ["  Elena@MadeSpace.CO ", "a.b_c@x.y.z", "ÉLAN@Studio.Example"] {
        let e = Email::parse(raw).unwrap();
        let again = Email::parse(e.as_str()).unwrap();
        assert_eq!(again, e);
    }
}

#[test]
fn email_into_string_keeps_normalized_text() {
    let e = Email::parse("Ops@Studio.Example").unwrap();
    assert_eq!(e.into_string(), "ops@studio.example".to_string());
}

// ---- seed ----

#[test]
fn every_action_has_five_cells() {
    let cells = default_cells();
    assert_eq!(cells.len(), ROWS.len() * 5);
}

#[test]
fn groups_cover_all_actions() {
    let total: usize = default_groups().iter().map(|g| g.actions.len()).sum();
    assert_eq!(total, ROWS.len());
}

#[test]
fn owner_allows_everything() {
    for key in ROWS {
        assert_eq!(
            default_state(key, BuiltinRole::Owner),
            Some(PermissionState::Allow)
        );
    }
}

#[test]
fn owner_only_actions_deny_admin() {
    for key in OWNER_ONLY_ACTIONS {
        assert_eq!(
            default_state(key, BuiltinRole::Admin),
            Some(PermissionState::Deny)
        );
    }
}

#[test]
fn default_state_of_non_column_role_is_none() {
    assert_eq!(default_state("users.invite", BuiltinRole::Guest), None);
    assert_eq!(default_state("no.such.action", BuiltinRole::Owner), None);
    assert_eq!(
        default_state("users.invite", BuiltinRole::Manager),
        Some(PermissionState::Scope)
    );
}

#[test]
fn default_groups_follow_category_order() {
    let groups = default_groups();
    let cats: Vec<PermissionCategory> = groups.iter().map(|g| g.category).collect();
    assert_eq!(
        cats,
        vec![
            PermissionCategory::Users,
            PermissionCategory::Roles,
            PermissionCategory::Org,
            PermissionCategory::Audit,
            PermissionCategory::Keys,
        ]
    );
    assert_eq!(groups[0].actions[0].key, "users.invite");
    assert_eq!(groups[0].actions[0].label, "Invite user");
}

#[test]
fn default_cells_list_rows_then_columns() {
    let cells = default_cells();
    assert_eq!(cells[0], ("users.invite", "owner", PermissionState::Allow));
    assert_eq!(cells[2], ("users.invite", "manager", PermissionState::Scope));
    assert_eq!(cells[4], ("users.invite", "viewer", PermissionState::Deny));
    assert_eq!(cells[5].0, "users.view");
}

// ---- authz ----

fn rid(n: u128) -> RoleId {
    RoleId::from_u128(n)
}
fn uid(n: u128) -> UserId {
    UserId::from_u128(n)
}

/// owner(rank 60), admin(50), member(30) with a couple of actions.
fn matrix(cells: Vec<MatrixCell>) -> PermissionMatrix {
    PermissionMatrix {
        groups: vec![PermissionGroup {
            category: PermissionCategory::Users,
            actions: vec![Action {
                key: "users.invite".into(),
                category: PermissionCategory::Users,
                label: "Invite".into(),
            }],
        }],
        roles: vec![(rid(1), 60), (rid(2), 50), (rid(3), 30)],
        cells,
    }
}

fn cell(action: &str, role: RoleId, state: PermissionState) -> MatrixCell {
    MatrixCell {
        action_key: action.into(),
        role_id: role,
        state,
    }
}

#[test]
fn deny_by_default_for_unknown_action() {
    let m = matrix(vec![]);
    let input = AuthzInput {
        actor_role: rid(2),
        matrix: &m,
        actor_id: uid(99),
        resource_owner: None,
    };
    assert_eq!(can(&input, "nonexistent"), Decision::Deny);
}

#[test]
fn allow_when_cell_allows() {
    let m = matrix(vec![cell("users.invite", rid(2), PermissionState::Allow)]);
    let input = AuthzInput {
        actor_role: rid(2),
        matrix: &m,
        actor_id: uid(99),
        resource_owner: None,
    };
    assert_eq!(can(&input, "users.invite"), Decision::Allow);
}

#[test]
fn deny_when_cell_denies() {
    let m = matrix(vec![cell("users.invite", rid(3), PermissionState::Deny)]);
    let input = AuthzInput {
        actor_role: rid(3),
        matrix: &m,
        actor_id: uid(99),
        resource_owner: None,
    };
    assert_eq!(can(&input, "users.invite"), Decision::Deny);
}

#[test]
fn scope_allows_self_owned_only() {
    let m = matrix(vec![cell("users.invite", rid(3), PermissionState::Scope)]);
    let me = uid(7);
    let mine = AuthzInput {
        actor_role: rid(3),
        matrix: &m,
        actor_id: me,
        resource_owner: Some(me),
    };
    assert_eq!(can(&mine, "users.invite"), Decision::Allow);
    let other = AuthzInput {
        actor_role: rid(3),
        matrix: &m,
        actor_id: me,
        resource_owner: Some(uid(8)),
    };
    assert_eq!(can(&other, "users.invite"), Decision::Deny);
    let none = AuthzInput {
        actor_role: rid(3),
        matrix: &m,
        actor_id: me,
        resource_owner: None,
    };
    assert_eq!(can(&none, "users.invite"), Decision::Deny);
}

#[test]
fn higher_role_inherits_lower_allow() {
    let m = matrix(vec![cell("users.invite", rid(2), PermissionState::Allow)]);
    let owner = AuthzInput {
        actor_role: rid(1),
        matrix: &m,
        actor_id: uid(1),
        resource_owner: None,
    };
    assert_eq!(can(&owner, "users.invite"), Decision::Allow);
    let member = AuthzInput {
        actor_role: rid(3),
        matrix: &m,
        actor_id: uid(3),
        resource_owner: None,
    };
    assert_eq!(can(&member, "users.invite"), Decision::Deny);
}

#[test]
fn inheritance_takes_most_permissive() {
    let m = matrix(vec![
        cell("users.invite", rid(3), PermissionState::Scope),
        cell("users.invite", rid(2), PermissionState::Deny),
    ]);
    let me = uid(1);
    let owner = AuthzInput {
        actor_role: rid(1),
        matrix: &m,
        actor_id: me,
        resource_owner: Some(me),
    };
    assert_eq!(can(&owner, "users.invite"), Decision::Allow);
}

#[test]
fn role_without_column_is_denied() {
    let m = matrix(vec![cell("users.invite", rid(2), PermissionState::Allow)]);
    let input = AuthzInput {
        actor_role: rid(42),
        matrix: &m,
        actor_id: uid(1),
        resource_owner: None,
    };
    assert_eq!(can(&input, "users.invite"), Decision::Deny);
    assert!(!Decision::Deny.is_allowed());
    assert!(Decision::Allow.is_allowed());
}

#[test]
fn effective_state_is_most_permissive_of_own_and_lower_roles() {
    let m = matrix(vec![
        cell("users.invite", rid(3), PermissionState::Scope),
        cell("users.invite", rid(2), PermissionState::Deny),
    ]);
    assert_eq!(m.effective_state("users.invite", rid(1)), Some(PermissionState::Scope));
    assert_eq!(m.effective_state("users.invite", rid(2)), Some(PermissionState::Scope));
    assert_eq!(m.effective_state("users.invite", rid(3)), Some(PermissionState::Scope));
    assert_eq!(m.effective_state("other", rid(1)), None);
    assert_eq!(m.rank_of(rid(2)), Some(50));
    assert_eq!(m.rank_of(rid(9)), None);
    assert_eq!(m.actions().len(), 1);
}

#[test]
fn state_and_category_text_round_trip() {
    for s in [PermissionState::Allow, PermissionState::Scope, PermissionState::Deny] {
        assert_eq!(PermissionState::from_str(s.as_str()), Some(s));
    }
    assert_eq!(PermissionState::from_str("maybe"), None);
    assert_eq!(PermissionState::Scope.label(), "Scoped");
    assert_eq!(
        PermissionState::Deny.most_permissive(PermissionState::Scope),
        PermissionState::Scope
    );
    for c in [
        PermissionCategory::Users,
        PermissionCategory::Roles,
        PermissionCategory::Org,
        PermissionCategory::Audit,
        PermissionCategory::Keys,
    ] {
        assert_eq!(PermissionCategory::from_str(c.as_str()), Some(c));
    }
}

#[test]
fn builtin_role_keys_round_trip_in_rank_order() {
    let order = BuiltinRole::ordered();
    for w in order.windows(2) {
        assert!(w[0].rank() >= w[1].rank());
    }
    for b in order {
        assert_eq!(BuiltinRole::from_key(b.key()), Some(b));
    }
    assert_eq!(BuiltinRole::Owner.rank(), 60);
    assert!(BuiltinRole::Viewer.is_column());
    assert!(!BuiltinRole::Guest.is_column());
    assert_eq!(BuiltinRole::from_key("stager"), None);
}

// ---- matrix rules ----

fn test_matrix() -> (PermissionMatrix, RoleId, RoleId) {
    let owner = rid(1);
    let admin = rid(2);
    let groups = vec![PermissionGroup {
        category: PermissionCategory::Users,
        actions: vec![Action {
            key: "users.invite".into(),
            category: PermissionCategory::Users,
            label: "Invite user".into(),
        }],
    }];
    let cells = vec![
        MatrixCell { action_key: "users.invite".into(), role_id: owner, state: PermissionState::Allow },
        MatrixCell { action_key: "users.invite".into(), role_id: admin, state: PermissionState::Allow },
        MatrixCell { action_key: "org.delete".into(), role_id: admin, state: PermissionState::Deny },
    ];
    let matrix = PermissionMatrix {
        groups,
        roles: vec![(owner, 60), (admin, 50)],
        cells,
    };
    (matrix, owner, admin)
}

#[test]
fn cycle_wraps_allow_scope_deny() {
    assert_eq!(cycle(PermissionState::Allow), PermissionState::Scope);
    assert_eq!(cycle(PermissionState::Scope), PermissionState::Deny);
    assert_eq!(cycle(PermissionState::Deny), PermissionState::Allow);
}

#[test]
fn cycle_three_times_is_identity() {
    for s in [PermissionState::Allow, PermissionState::Scope, PermissionState::Deny] {
        assert_eq!(cycle(cycle(cycle(s))), s);
        assert_ne!(cycle(s), s);
    }
}

#[test]
fn owner_column_is_locked() {
    assert!(is_locked("users.invite", "owner"));
    assert_eq!(lock_reason("users.invite", "owner"), Some("Owner has full control by definition."));
}

#[test]
fn owner_only_actions_locked_for_non_owner() {
    assert!(is_locked("roles.owner", "admin"));
    assert!(is_locked("org.transfer", "admin"));
    assert!(is_locked("org.delete", "manager"));
    assert_eq!(lock_reason("roles.owner", "admin"), Some("Only the Owner may grant ownership."));
}

#[test]
fn ordinary_cell_is_editable() {
    assert!(!is_locked("users.invite", "admin"));
    assert_eq!(lock_reason("users.invite", "admin"), None);
}

#[test]
fn apply_click_cycles_editable_cell() {
    let (mut m, _owner, admin) = test_matrix();
    let cell = apply_click(&mut m, "users.invite", admin, "admin").unwrap();
    assert_eq!(cell.state, PermissionState::Scope);
    assert_eq!(m.raw_state("users.invite", admin), Some(PermissionState::Scope));
}

#[test]
fn apply_click_rejects_owner_column() {
    let (mut m, owner, _admin) = test_matrix();
    let err = apply_click(&mut m, "users.invite", owner, "owner").unwrap_err();
    assert!(matches!(err, DomainError::CellLocked(_)));
    assert_eq!(m.raw_state("users.invite", owner), Some(PermissionState::Allow));
}

#[test]
fn apply_click_rejects_owner_only_action() {
    let (mut m, _owner, admin) = test_matrix();
    let err = apply_click(&mut m, "org.delete", admin, "admin").unwrap_err();
    assert!(matches!(err, DomainError::CellLocked(_)));
    assert_eq!(m.raw_state("org.delete", admin), Some(PermissionState::Deny));
}

#[test]
fn apply_click_missing_cell_errors() {
    let (mut m, _owner, admin) = test_matrix();
    let err = apply_click(&mut m, "nonexistent.action", admin, "admin").unwrap_err();
    assert!(matches!(err, DomainError::NotFound(_)));
}

#[test]
fn apply_click_leaves_other_cells_alone() {
    let (mut m, owner, admin) = test_matrix();
    apply_click(&mut m, "users.invite", admin, "admin").unwrap();
    apply_click(&mut m, "users.invite", admin, "admin").unwrap();
    assert_eq!(m.raw_state("users.invite", admin), Some(PermissionState::Deny));
    assert_eq!(m.raw_state("users.invite", owner), Some(PermissionState::Allow));
    assert_eq!(m.raw_state("org.delete", admin), Some(PermissionState::Deny));
    assert_eq!(m.cells.len(), 3);
}

// ---- password policy ----

fn policy(min: u8, num: bool, sym: bool) -> PasswordPolicy {
    PasswordPolicy {
        min_length: min,
        require_number: num,
        require_symbol: sym,
        rotation_days: None,
    }
}

#[test]
fn accepts_compliant_password() {
    assert!(validate_password("Sufficient1!", &policy(8, true, true)).is_ok());
}

#[test]
fn flags_too_short() {
    let err = validate_password("aB1!", &policy(8, true, true)).unwrap_err();
    assert!(err.contains(&PolicyViolation::TooShort { min: 8, actual: 4 }));
}

#[test]
fn flags_missing_number_and_symbol() {
    let err = validate_password("abcdefghij", &policy(8, true, true)).unwrap_err();
    assert!(err.contains(&PolicyViolation::MissingNumber));
    assert!(err.contains(&PolicyViolation::MissingSymbol));
    assert_eq!(err.len(), 2);
}

#[test]
fn number_not_required_when_policy_off() {
    assert!(validate_password("abcdefghij", &policy(8, false, false)).is_ok());
}

#[test]
fn counts_unicode_by_char_not_byte() {
    assert!(validate_password("néé1!", &policy(5, true, true)).is_ok());
    let err = validate_password("néé1!", &policy(6, false, false)).unwrap_err();
    assert!(err.contains(&PolicyViolation::TooShort { min: 6, actual: 5 }));
}

#[test]
fn reports_all_violations_at_once() {
    let err = validate_password("ab", &policy(8, true, true)).unwrap_err();
    assert_eq!(err.len(), 3);
}

#[test]
fn violations_come_in_rule_order() {
    let err = validate_password("ab", &policy(8, true, true)).unwrap_err();
    assert_eq!(
        err,
        vec![
            PolicyViolation::TooShort { min: 8, actual: 2 },
            PolicyViolation::MissingNumber,
            PolicyViolation::MissingSymbol,
        ]
    );
    // A space is whitespace, so it does not count as a symbol.
    let err = validate_password("abc defgh1", &policy(8, true, true)).unwrap_err();
    assert_eq!(err, vec![PolicyViolation::MissingSymbol]);
}

#[test]
fn default_policy_values() {
    let p = PasswordPolicy::default();
    assert_eq!(p.min_length, 12);
    assert!(p.require_number && p.require_symbol);
    assert_eq!(p.rotation_days, Some(90));
}

// ---- role guards ----

fn role(key: &str, rank: i16) -> Role {
    Role {
        id: RoleId::new().unwrap(),
        org_id: OrgId::new().unwrap(),
        key: key.into(),
        name: key.into(),
        builtin: BuiltinRole::from_key(key),
        is_column: true,
        base_role_id: None,
        rank,
    }
}

#[test]
fn cannot_assign_above_own_rank() {
    let admin = role("admin", 50);
    let owner = role("owner", 60);
    assert!(check_no_privilege_escalation(&admin, &owner).is_err());
}

#[test]
fn can_assign_at_or_below_own_rank() {
    let admin = role("admin", 50);
    let member = role("member", 30);
    let admin2 = role("admin", 50);
    assert!(check_no_privilege_escalation(&admin, &member).is_ok());
    assert!(check_no_privilege_escalation(&admin, &admin2).is_ok());
}

#[test]
fn owner_can_assign_owner() {
    let owner = role("owner", 60);
    let owner_target = role("owner", 60);
    assert!(check_no_privilege_escalation(&owner, &owner_target).is_ok());
}

#[test]
fn escalation_error_names_both_roles() {
    let admin = role("admin", 50);
    let owner = role("owner", 60);
    let err = check_no_privilege_escalation(&admin, &owner).unwrap_err();
    match err {
        DomainError::PrivilegeEscalation(m) => {
            assert_eq!(m, "cannot assign 'owner' (rank 60) — above your own role 'admin' (rank 50)");
        }
        other => panic!("unexpected {other:?}"),
    }
}

#[test]
fn last_admin_cannot_be_removed() {
    assert!(check_last_admin(1, true).is_err());
    assert!(matches!(
        check_last_admin(1, true).unwrap_err(),
        DomainError::LastAdminProtected(_)
    ));
}

#[test]
fn admin_removable_when_others_remain() {
    assert!(check_last_admin(2, true).is_ok());
}

#[test]
fn non_admin_change_never_triggers_protection() {
    assert!(check_last_admin(1, false).is_ok());
}

#[test]
fn custom_role_copies_base_cells() {
    let base = RoleId::new().unwrap();
    let new = RoleId::new().unwrap();
    let base_cells = vec![
        MatrixCell {
            action_key: "users.invite".into(),
            role_id: base,
            state: PermissionState::Allow,
        },
        MatrixCell {
            action_key: "org.delete".into(),
            role_id: base,
            state: PermissionState::Deny,
        },
    ];
    let copied = build_custom_role_cells(&base_cells, new);
    assert_eq!(copied.len(), 2);
    assert!(copied.iter().all(|c| c.role_id == new));
    assert_eq!(copied[0].action_key, "users.invite");
    assert_eq!(copied[0].state, PermissionState::Allow);
    assert_eq!(copied[1].state, PermissionState::Deny);
}

#[test]
fn domain_error_messages() {
    assert_eq!(
        DomainError::NotFound("user".to_string()).message(),
        "not found: user"
    );
    assert_eq!(
        DomainError::PasswordPolicy(vec![PolicyViolation::MissingNumber]).message(),
        "password policy not satisfied"
    );
}

#[test]
fn owner_column_stays_allowed_under_clicks() {
    let ids: Vec<RoleId> = (1..=5).map(RoleId::from_u128).collect();
    let keys = ["owner", "admin", "manager", "member", "viewer"];
    let mut m = PermissionMatrix {
        groups: default_groups(),
        roles: vec![(ids[0], 60), (ids[1], 50), (ids[2], 40), (ids[3], 30), (ids[4], 20)],
        cells: default_matrix_cells(&ids),
    };
    for key in ROWS {
        for (j, role) in ids.iter().enumerate() {
            let _ = apply_click(&mut m, key, *role, keys[j]);
        }
    }
    for c in m.cells.iter().filter(|c| c.role_id == ids[0]) {
        assert_eq!(c.state, PermissionState::Allow);
    }
    for key in OWNER_ONLY_ACTIONS {
        for role in &ids[1..] {
            assert_eq!(m.raw_state(key, *role), Some(PermissionState::Deny));
        }
    }
    assert_eq!(m.raw_state("users.invite", ids[1]), Some(PermissionState::Scope));
}

#[test]
fn violation_and_repository_messages() {
    assert_eq!(
        PolicyViolation::TooShort { min: 12, actual: 3 }.message(),
        "must be at least 12 characters (got 3)"
    );
    assert_eq!(PolicyViolation::MissingNumber.message(), "must contain a number");
    assert_eq!(PolicyViolation::MissingSymbol.message(), "must contain a symbol");
    assert_eq!(RepoError::UniqueViolation("dup".into()).message(), "unique violation: dup");
    assert_eq!(RepoError::Other("down".into()).message(), "repository failure: down");
}

#[test]
fn effective_state_ignores_roles_of_equal_rank() {
    let mut m = matrix(vec![cell("users.invite", rid(4), PermissionState::Allow)]);
    m.roles.push((rid(4), 50));
    // rid(2) and rid(4) share rank 50: neither inherits from the other.
    assert_eq!(m.effective_state("users.invite", rid(2)), None);
    assert_eq!(m.effective_state("users.invite", rid(4)), Some(PermissionState::Allow));
    // The owner (60) is above both and inherits the Allow.
    assert_eq!(m.effective_state("users.invite", rid(1)), Some(PermissionState::Allow));
    assert_eq!(m.effective_state("users.invite", rid(3)), None);
}

#[test]
fn email_domain_may_end_with_a_dot() {
    assert_eq!(Email::parse("a@b.co.").unwrap().as_str(), "a@b.co.");
    assert!(Email::parse("a@.co").is_err());
    assert!(Email::parse("a@b.").is_err());
    assert!(Email::parse("a@.b").is_err());
    assert!(Email::parse("a@bc").is_err());
}
