//! The first-boot seed: when the store has no users yet, the default
//! organization, the seven roles, the full default matrix, and the Owner.

use crate::entities::email::{email_text, is_valid_email, Email};
use crate::entities::organization::{Branding, MfaConfig, MfaEnforce, MfaMethod, Organization, PasswordPolicy, SsoConfig, SsoProvider};
use crate::entities::permission::MatrixCell;
use crate::entities::role::{builtin_display_name, builtin_is_column, builtin_key, builtin_order, builtin_rank, BuiltinRole, Role};
use crate::entities::user::{User, UserStatus};
use crate::entities::Timestamp;
use crate::error::{domain_message, DomainError, RepoError};
use crate::ids::{OrgId, RoleId, UserId};
use crate::services::matrix_rules::owner_column_allows;
use crate::seed::{default_branding_accent, default_matrix_cells, seed_key, seed_row_count, seed_states};
use crate::text::{clone_opt, concat, owned};
use vstd::prelude::*;

verus! {

/// Configuration of the seeded organization and Owner.
#[derive(Debug)]
pub struct SeedConfig {
    pub org_name: String,
    pub org_domain: Option<String>,
    pub owner_email: String,
    pub owner_name: String,
    pub owner_password: String,
}

/// The seed runs only on a store without users.
pub fn needs_seed(user_count: i64) -> (r: bool)
    ensures
        r == (user_count <= 0),
{
    user_count <= 0
}

/// The seeded Owner's email; an invalid one stops the seed.
pub fn seed_owner_email(cfg: &SeedConfig) -> (r: Result<Email, RepoError>)
    ensures
        r is Ok <==> is_valid_email(email_text(cfg.owner_email@)),
        r matches Ok(e) ==> e@ == email_text(cfg.owner_email@),
        r is Err ==> (r matches Err(RepoError::Other(m)) && m@ == "invalid SEED_OWNER_EMAIL"@),
{
    match Email::parse(cfg.owner_email.as_str()) {
        Ok(e) => Ok(e),
        Err(_) => Err(RepoError::Other(owned("invalid SEED_OWNER_EMAIL"))),
    }
}

/// A failure to hash the Owner's password, as a repository error.
pub fn seed_hash_error(e: &DomainError) -> (r: RepoError)
    ensures
        r matches RepoError::Other(m) && m@ == "seed hash: "@ + domain_message(*e),
{
    let m = e.message();
    RepoError::Other(concat("seed hash: ", m.as_str()))
}

/// What the seed writes.
#[derive(Debug)]
pub struct SeedPlan {
    pub org: Organization,
    /// The seven default roles, most to least powerful.
    pub roles: Vec<Role>,
    /// The default matrix.
    pub cells: Vec<MatrixCell>,
    pub owner: User,
}

/// The seed: the organization with the default settings (MFA on with TOTP
/// for admins, 12-character passwords with a number and a symbol rotated
/// every 90 days, SSO off) owned by the Owner; the seven default roles with
/// ids `role_ids` in order; the default cell of every catalogued action for
/// each column role; and the active Owner with the hashed password and the
/// scope "Studio".
pub fn seed_plan(
    cfg: &SeedConfig,
    email: Email,
    password_hash: String,
    org_id: OrgId,
    owner_id: UserId,
    role_ids: &[RoleId],
    now: Timestamp,
) -> (p: SeedPlan)
    requires
        role_ids@.len() == 7,
    ensures
        p.org.id == org_id,
        p.org.name == cfg.org_name,
        p.org.domain == cfg.org_domain,
        p.org.owner_id == owner_id,
        p.org.pending_owner_id is None,
        p.org.branding.accent_color@ == "#D6B982"@,
        p.org.mfa == (MfaConfig { enabled: true, method: MfaMethod::Totp, enforce: MfaEnforce::Admins }),
        p.org.password_policy == (PasswordPolicy {
            min_length: 12,
            require_number: true,
            require_symbol: true,
            rotation_days: Some(90),
        }),
        p.org.sso == (SsoConfig { enabled: false, provider: SsoProvider::Saml, url: None }),
        p.roles@.len() == 7,
        forall|k: int|
            0 <= k < 7 ==> {
                &&& (#[trigger] p.roles@[k]).id == role_ids@[k]
                &&& p.roles@[k].org_id == org_id
                &&& p.roles@[k].key@ == builtin_key(builtin_order()[k])
                &&& p.roles@[k].name@ == builtin_display_name(builtin_order()[k])
                &&& p.roles@[k].builtin == Some(builtin_order()[k])
                &&& p.roles@[k].is_column == builtin_is_column(builtin_order()[k])
                &&& p.roles@[k].base_role_id is None
                &&& p.roles@[k].rank == builtin_rank(builtin_order()[k])
            },
        p.cells@.len() == 5 * seed_row_count(),
        forall|k: int|
            0 <= k < p.cells@.len() ==> (#[trigger] p.cells@[k]).action_key@ == seed_key(k / 5)
                && p.cells@[k].role_id == role_ids@[k % 5] && p.cells@[k].state == seed_states(k / 5)[k % 5],
        (forall|j: int| 1 <= j < 5 ==> #[trigger] role_ids@[j] != role_ids@[0]) ==> owner_column_allows(
            p.cells@,
            p.roles@[0].id,
        ),
        p.owner.id == owner_id,
        p.owner.org_id == org_id,
        p.owner.email == email,
        p.owner.name == cfg.owner_name,
        p.owner.role_id == role_ids@[0],
        p.owner.status == UserStatus::Active,
        p.owner.scope matches Some(s) && s@ == "Studio"@,
        p.owner.password_hash == Some(password_hash),
        p.owner.created_at == now,
        p.owner.last_active_at == Some(now),
{
    let org = Organization {
        id: org_id,
        name: cfg.org_name.clone(),
        domain: clone_opt(&cfg.org_domain),
        owner_id,
        pending_owner_id: None,
        branding: Branding { accent_color: owned(default_branding_accent()) },
        mfa: MfaConfig { enabled: true, method: MfaMethod::Totp, enforce: MfaEnforce::Admins },
        password_policy: PasswordPolicy {
            min_length: 12,
            require_number: true,
            require_symbol: true,
            rotation_days: Some(90),
        },
        sso: SsoConfig { enabled: false, provider: SsoProvider::Saml, url: None },
    };
    let order = BuiltinRole::ordered();
    let mut roles: Vec<Role> = Vec::new();
    let mut k: usize = 0;
    while k < 7
        invariant
            0 <= k <= 7,
            role_ids@.len() == 7,
            order@ == builtin_order(),
            roles@.len() == k,
            forall|j: int|
                0 <= j < k ==> {
                    &&& (#[trigger] roles@[j]).id == role_ids@[j]
                    &&& roles@[j].org_id == org_id
                    &&& roles@[j].key@ == builtin_key(builtin_order()[j])
                    &&& roles@[j].name@ == builtin_display_name(builtin_order()[j])
                    &&& roles@[j].builtin == Some(builtin_order()[j])
                    &&& roles@[j].is_column == builtin_is_column(builtin_order()[j])
                    &&& roles@[j].base_role_id is None
                    &&& roles@[j].rank == builtin_rank(builtin_order()[j])
                },
        decreases 7 - k,
    {
        let b = order[k];
        roles.push(
            Role {
                id: role_ids[k],
                org_id,
                key: owned(b.key()),
                name: owned(b.display_name()),
                builtin: Some(b),
                is_column: b.is_column(),
                base_role_id: None,
                rank: b.rank(),
            },
        );
        k = k + 1;
    }
    let cells = default_matrix_cells(role_ids);
    let owner = User {
        id: owner_id,
        org_id,
        email,
        name: cfg.owner_name.clone(),
        role_id: role_ids[0],
        status: UserStatus::Active,
        scope: Some(owned("Studio")),
        password_hash: Some(password_hash),
        created_at: now,
        last_active_at: Some(now),
    };
    SeedPlan { org, roles, cells, owner }
}

/// The single organization, when exactly one exists (single-tenant sign-in).
pub fn sole_org_id(ids: &[OrgId]) -> (r: Option<OrgId>)
    ensures
        r == (if ids@.len() == 1 {
            Some(ids@[0])
        } else {
            None
        }),
{
    if ids.len() == 1 {
        Some(ids[0])
    } else {
        None
    }
}

} // verus!
