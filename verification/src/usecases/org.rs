//! Organization use cases: settings updates, two-step ownership transfer
//! (initiate, then accept), and deletion. Every mutation is audited.

use crate::entities::organization::{MfaConfig, Organization, PasswordPolicy, SsoConfig, SsoProvider};
use crate::entities::permission::PermissionCategory;
use crate::entities::role::{BuiltinRole, Role};
use crate::entities::user::{User, UserStatus};
use crate::error::DomainError;
use crate::ids::UserId;
use crate::text::{decimal_text, int_text, owned, trim, trim_ws};
use crate::usecases::audit::{draft, has_text, AuditDraft};
use crate::usecases::ctx::ActorContext;
use crate::usecases::error::AppError;
use vstd::prelude::*;

verus! {

/// A partial update of organization settings; only `Some` fields apply.
#[derive(Debug)]
pub struct OrgSettingsPatch {
    pub name: Option<String>,
    pub domain: Option<String>,
    pub accent_color: Option<String>,
    pub mfa: Option<MfaConfig>,
    pub password_policy: Option<PasswordPolicy>,
    pub sso: Option<SsoConfig>,
}

impl Default for OrgSettingsPatch {
    fn default() -> (p: Self)
        ensures
            p.name is None,
            p.domain is None,
            p.accent_color is None,
            p.mfa is None,
            p.password_policy is None,
            p.sso is None,
    {
        OrgSettingsPatch {
            name: None,
            domain: None,
            accent_color: None,
            mfa: None,
            password_policy: None,
            sso: None,
        }
    }
}


/// Apply a settings patch.
pub fn apply_settings_patch(org: Organization, patch: OrgSettingsPatch) -> (r: Organization)
    ensures
        r.id == org.id,
        r.owner_id == org.owner_id,
        r.pending_owner_id == org.pending_owner_id,
        r.name == (match patch.name {
            Some(n) => n,
            None => org.name,
        }),
        match patch.domain {
            Some(d) => if trim_ws(d@).len() == 0 {
                r.domain is None
            } else {
                r.domain == Some(d)
            },
            None => r.domain == org.domain,
        },
        r.branding.accent_color == (match patch.accent_color {
            Some(a) => a,
            None => org.branding.accent_color,
        }),
        r.mfa == (match patch.mfa {
            Some(m) => m,
            None => org.mfa,
        }),
        r.password_policy == (match patch.password_policy {
            Some(p) => p,
            None => org.password_policy,
        }),
        r.sso == (match patch.sso {
            Some(s) => s,
            None => org.sso,
        }),
{
    let mut org = org;
    match patch.name {
        Some(name) => org.name = name,
        None => {},
    }
    match patch.domain {
        Some(domain) => {
            let t = trim(domain.as_str());
            if t.as_str().unicode_len() == 0 {
                org.domain = None;
            } else {
                org.domain = Some(domain);
            }
        },
        None => {},
    }
    match patch.accent_color {
        Some(accent) => org.branding.accent_color = accent,
        None => {},
    }
    match patch.mfa {
        Some(mfa) => org.mfa = mfa,
        None => {},
    }
    match patch.password_policy {
        Some(pp) => org.password_policy = pp,
        None => {},
    }
    match patch.sso {
        Some(sso) => org.sso = sso,
        None => {},
    }
    org
}

/// The audit snapshot of an organization's security settings.
pub open spec fn summary_of(org: Organization) -> Seq<char> {
    "MFA "@ + (if org.mfa.enabled {
        "on"@
    } else {
        "off"@
    }) + " · pw min "@ + decimal_text(org.password_policy.min_length as int) + " · SSO "@ + (if org.sso.enabled {
        match org.sso.provider {
            SsoProvider::Saml => "saml"@,
            SsoProvider::Oidc => "oidc"@,
        }
    } else {
        "off"@
    })
}

/// A compact human summary used as the audit before/after snapshot.
pub fn summarize(org: &Organization) -> (r: String)
    ensures
        r@ == summary_of(*org),
{
    let mut r = owned("MFA ");
    r.append(if org.mfa.enabled {
        "on"
    } else {
        "off"
    });
    r.append(" · pw min ");
    let min = int_text(org.password_policy.min_length as i128);
    r.append(min.as_str());
    r.append(" · SSO ");
    r.append(
        if org.sso.enabled {
            match org.sso.provider {
                SsoProvider::Saml => "saml",
                SsoProvider::Oidc => "oidc",
            }
        } else {
            "off"
        },
    );
    r
}

/// The audit draft of a settings update.
pub fn settings_update_draft(before: String, updated: &Organization) -> (d: AuditDraft)
    ensures
        d.action@ == "org.settings.update"@,
        d.category == PermissionCategory::Org,
        has_text(d.target, "Organization settings"@),
        d.before == Some(before),
        has_text(d.after, summary_of(*updated)),
{
    draft("org.settings.update", PermissionCategory::Org, owned("Organization settings"), before, summarize(updated))
}

/// The error for the actor's organization not existing.
pub fn org_missing() -> (e: DomainError)
    ensures
        e matches DomainError::NotFound(m) && m@ == "organization"@,
{
    DomainError::NotFound(owned("organization"))
}

/// Initiate an ownership transfer to `target` (the `candidate` user, whose
/// role is `candidate_role`): ownership goes only to an active admin, so an
/// inactive candidate is refused first, then one whose role is not the
/// built-in Admin; otherwise the organization with the transfer pending and
/// the `org.ownership.transfer` draft.
pub fn plan_transfer(
    org: Organization,
    candidate: &User,
    candidate_role: &Role,
    target: UserId,
) -> (r: Result<(Organization, AuditDraft), AppError>)
    requires
        candidate_role.id == candidate.role_id,
    ensures
        r is Ok <==> candidate.status == UserStatus::Active && candidate_role.builtin == Some(BuiltinRole::Admin),
        candidate.status != UserStatus::Active ==> (r matches Err(AppError::Domain(DomainError::Invalid(m)))
            && m@ == "target user is not active"@),
        candidate.status == UserStatus::Active && candidate_role.builtin != Some(BuiltinRole::Admin) ==> (r matches Err(
            AppError::Domain(DomainError::Invalid(m)),
        ) && m@ == "target user is not an admin"@),
        r matches Ok((o, d)) ==> {
            &&& o == (Organization { pending_owner_id: Some(target), ..org })
            &&& d.action@ == "org.ownership.transfer"@
            &&& d.category == PermissionCategory::Org
            &&& d.target == Some(candidate.name)
            &&& has_text(d.before, "Admin"@)
            &&& has_text(d.after, "Owner (pending accept)"@)
        },
{
    if !candidate.is_active() {
        return Err(AppError::Domain(DomainError::Invalid(owned("target user is not active"))));
    }
    match candidate_role.builtin {
        Some(BuiltinRole::Admin) => {},
        _ => return Err(AppError::Domain(DomainError::Invalid(owned("target user is not an admin")))),
    }
    let mut o = org;
    o.pending_owner_id = Some(target);
    let d = draft(
        "org.ownership.transfer",
        PermissionCategory::Org,
        candidate.name.clone(),
        owned("Admin"),
        owned("Owner (pending accept)"),
    );
    Ok((o, d))
}

/// Only the pending owner may accept a transfer.
pub fn check_pending_owner(org: &Organization, actor: UserId) -> (r: Result<(), AppError>)
    ensures
        r is Ok <==> org.pending_owner_id == Some(actor),
        r is Err ==> (r matches Err(AppError::Domain(DomainError::Forbidden(m)))
            && m@ == "no pending transfer for you to accept"@),
{
    match org.pending_owner_id {
        Some(p) => if p == actor {
            return Ok(());
        },
        None => {},
    }
    Err(AppError::Domain(DomainError::Forbidden(owned("no pending transfer for you to accept"))))
}

/// The audit draft of accepting ownership.
pub fn accept_draft(ctx: &ActorContext) -> (d: AuditDraft)
    ensures
        d.action@ == "org.ownership.accept"@,
        d.category == PermissionCategory::Org,
        d.target == Some(ctx.actor.name),
        has_text(d.before, "Admin"@),
        has_text(d.after, "Owner"@),
{
    draft("org.ownership.accept", PermissionCategory::Org, ctx.actor.name.clone(), owned("Admin"), owned("Owner"))
}

/// The audit draft of deleting the organization.
pub fn delete_draft(org: &Organization) -> (d: AuditDraft)
    ensures
        d.action@ == "org.delete"@,
        d.category == PermissionCategory::Org,
        d.target == Some(org.name),
        has_text(d.before, "Active"@),
        has_text(d.after, "Deleted"@),
{
    draft("org.delete", PermissionCategory::Org, org.name.clone(), owned("Active"), owned("Deleted"))
}

} // verus!
