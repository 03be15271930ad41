//! Decoding stored rows into entities. Enums are stored as text and ids as
//! UUIDs; the host reads each column into a plain row value, and these
//! functions decide the entity, or the decoding error.

use crate::entities::api_key::{parse_key_status, parse_scope, scope_text, scope_text_round_trip, ApiKey, ApiKeyStatus, Scope};
use crate::entities::audit::AuditEvent;
use crate::entities::email::{email_text, is_valid_email, normalized_email, Email};
use crate::entities::organization::{
    Branding, MfaConfig, MfaEnforce, MfaMethod, Organization, PasswordPolicy, SsoConfig, SsoProvider,
};
use crate::entities::permission::{parse_category, parse_state, PermissionCategory, PermissionState};
use crate::entities::role::{parse_builtin, BuiltinRole, Role};
use crate::entities::session::Session;
use crate::entities::user::{parse_user_status, user_status_round_trip, user_status_text, User, UserStatus};
use crate::entities::Timestamp;
use crate::error::RepoError;
use crate::ids::{ApiKeyId, AuditEventId, OrgId, RoleId, SessionId, UserId};
use crate::infra::db_error::{decode_err, decode_message};
use crate::text::str_eq;
use vstd::prelude::*;

verus! {

/// A decoding error with its message.
pub open spec fn is_decode_error<T>(r: Result<T, RepoError>, what: Seq<char>, value: Seq<char>) -> bool {
    r matches Err(RepoError::Other(m)) && m@ == decode_message(what, value)
}

/// The MFA method stored as `t`, if any.
pub open spec fn parse_mfa_method_of(t: Seq<char>) -> Option<MfaMethod> {
    if t == "totp"@ {
        Some(MfaMethod::Totp)
    } else if t == "sms"@ {
        Some(MfaMethod::Sms)
    } else if t == "webauthn"@ {
        Some(MfaMethod::Webauthn)
    } else {
        None
    }
}

/// The MFA enforcement stored as `t`, if any.
pub open spec fn parse_mfa_enforce_of(t: Seq<char>) -> Option<MfaEnforce> {
    if t == "all"@ {
        Some(MfaEnforce::All)
    } else if t == "admins"@ {
        Some(MfaEnforce::Admins)
    } else if t == "none"@ {
        Some(MfaEnforce::Nobody)
    } else {
        None
    }
}

/// The SSO provider stored as `t`, if any.
pub open spec fn parse_sso_provider_of(t: Seq<char>) -> Option<SsoProvider> {
    if t == "saml"@ {
        Some(SsoProvider::Saml)
    } else if t == "oidc"@ {
        Some(SsoProvider::Oidc)
    } else {
        None
    }
}

/// The stored text of an MFA method.
pub open spec fn mfa_method_text(m: MfaMethod) -> Seq<char> {
    match m {
        MfaMethod::Totp => "totp"@,
        MfaMethod::Sms => "sms"@,
        MfaMethod::Webauthn => "webauthn"@,
    }
}

/// The stored text of an MFA enforcement.
pub open spec fn mfa_enforce_text(m: MfaEnforce) -> Seq<char> {
    match m {
        MfaEnforce::All => "all"@,
        MfaEnforce::Admins => "admins"@,
        MfaEnforce::Nobody => "none"@,
    }
}

/// The stored text of an SSO provider.
pub open spec fn sso_provider_text(p: SsoProvider) -> Seq<char> {
    match p {
        SsoProvider::Saml => "saml"@,
        SsoProvider::Oidc => "oidc"@,
    }
}

/// Decode an MFA method.
pub fn parse_mfa_method(s: &str) -> (r: Result<MfaMethod, RepoError>)
    ensures
        match parse_mfa_method_of(s@) {
            Some(m) => r == Ok::<MfaMethod, RepoError>(m),
            None => is_decode_error(r, "mfa method"@, s@),
        },
{
    if str_eq(s, "totp") {
        Ok(MfaMethod::Totp)
    } else if str_eq(s, "sms") {
        Ok(MfaMethod::Sms)
    } else if str_eq(s, "webauthn") {
        Ok(MfaMethod::Webauthn)
    } else {
        Err(decode_err("mfa method", s))
    }
}

/// Decode an MFA enforcement.
pub fn parse_mfa_enforce(s: &str) -> (r: Result<MfaEnforce, RepoError>)
    ensures
        match parse_mfa_enforce_of(s@) {
            Some(m) => r == Ok::<MfaEnforce, RepoError>(m),
            None => is_decode_error(r, "mfa enforce"@, s@),
        },
{
    if str_eq(s, "all") {
        Ok(MfaEnforce::All)
    } else if str_eq(s, "admins") {
        Ok(MfaEnforce::Admins)
    } else if str_eq(s, "none") {
        Ok(MfaEnforce::Nobody)
    } else {
        Err(decode_err("mfa enforce", s))
    }
}

/// Decode an SSO provider.
pub fn parse_sso_provider(s: &str) -> (r: Result<SsoProvider, RepoError>)
    ensures
        match parse_sso_provider_of(s@) {
            Some(p) => r == Ok::<SsoProvider, RepoError>(p),
            None => is_decode_error(r, "sso provider"@, s@),
        },
{
    if str_eq(s, "saml") {
        Ok(SsoProvider::Saml)
    } else if str_eq(s, "oidc") {
        Ok(SsoProvider::Oidc)
    } else {
        Err(decode_err("sso provider", s))
    }
}

/// Encode an MFA method.
pub fn mfa_method_str(m: MfaMethod) -> (r: &'static str)
    ensures
        r@ == mfa_method_text(m),
{
    match m {
        MfaMethod::Totp => "totp",
        MfaMethod::Sms => "sms",
        MfaMethod::Webauthn => "webauthn",
    }
}

/// Encode an MFA enforcement.
pub fn mfa_enforce_str(m: MfaEnforce) -> (r: &'static str)
    ensures
        r@ == mfa_enforce_text(m),
{
    match m {
        MfaEnforce::All => "all",
        MfaEnforce::Admins => "admins",
        MfaEnforce::Nobody => "none",
    }
}

/// Encode an SSO provider.
pub fn sso_provider_str(p: SsoProvider) -> (r: &'static str)
    ensures
        r@ == sso_provider_text(p),
{
    match p {
        SsoProvider::Saml => "saml",
        SsoProvider::Oidc => "oidc",
    }
}

/// Encoding and then decoding an MFA method, MFA enforcement or SSO provider
/// gives it back.
pub proof fn settings_text_round_trip(m: MfaMethod, e: MfaEnforce, p: SsoProvider)
    ensures
        parse_mfa_method_of(mfa_method_text(m)) == Some(m),
        parse_mfa_enforce_of(mfa_enforce_text(e)) == Some(e),
        parse_sso_provider_of(sso_provider_text(p)) == Some(p),
{
    reveal_strlit("totp");
    reveal_strlit("sms");
    reveal_strlit("webauthn");
    reveal_strlit("all");
    reveal_strlit("admins");
    reveal_strlit("none");
    reveal_strlit("saml");
    reveal_strlit("oidc");
    assert("sms"@.len() != "totp"@.len());
    assert("webauthn"@.len() != "totp"@.len());
    assert("webauthn"@.len() != "sms"@.len());
    assert("admins"@.len() != "all"@.len());
    assert("none"@.len() != "all"@.len());
    assert("none"@.len() != "admins"@.len());
    assert("oidc"@[0] != "saml"@[0]);
}

/// The columns of a stored user.
#[derive(Debug)]
pub struct UserRow {
    pub id: u128,
    pub org_id: u128,
    pub email: String,
    pub name: String,
    pub role_id: u128,
    pub status: String,
    pub scope: Option<String>,
    pub password_hash: Option<String>,
    pub created_at: Timestamp,
    pub last_active_at: Option<Timestamp>,
}

/// Decode a user: the stored email must parse and the status be known.
pub fn user_from_row(row: UserRow) -> (r: Result<User, RepoError>)
    ensures
        !is_valid_email(email_text(row.email@)) ==> is_decode_error(r, "email"@, row.email@),
        is_valid_email(email_text(row.email@)) && parse_user_status(row.status@) is None ==> is_decode_error(
            r,
            "user status"@,
            row.status@,
        ),
        is_valid_email(email_text(row.email@)) && parse_user_status(row.status@) is Some ==> {
            &&& r matches Ok(u)
            &&& u.id == UserId(row.id)
            &&& u.org_id == OrgId(row.org_id)
            &&& u.email@ == email_text(row.email@)
            &&& u.name == row.name
            &&& u.role_id == RoleId(row.role_id)
            &&& Some(u.status) == parse_user_status(row.status@)
            &&& u.scope == row.scope
            &&& u.password_hash == row.password_hash
            &&& u.created_at == row.created_at
            &&& u.last_active_at == row.last_active_at
        },
{
    let email = match Email::parse(row.email.as_str()) {
        Ok(e) => e,
        Err(_) => return Err(decode_err("email", row.email.as_str())),
    };
    let status = match UserStatus::from_str(row.status.as_str()) {
        Some(s) => s,
        None => return Err(decode_err("user status", row.status.as_str())),
    };
    Ok(User {
        id: UserId(row.id),
        org_id: OrgId(row.org_id),
        email,
        name: row.name,
        role_id: RoleId(row.role_id),
        status,
        scope: row.scope,
        password_hash: row.password_hash,
        created_at: row.created_at,
        last_active_at: row.last_active_at,
    })
}

/// The columns of a stored role.
/// A user written as a row (email and status as their texts, the other
/// columns as they are) decodes back: the email text reads as the same email
/// and the status text as the same status, so `user_from_row` gives back the
/// user that was written.
pub proof fn user_row_round_trip(u: User, row: UserRow)
    requires
        normalized_email(u.email@),
        row.email@ == u.email@,
        row.status@ == user_status_text(u.status),
    ensures
        is_valid_email(email_text(row.email@)),
        email_text(row.email@) == u.email@,
        parse_user_status(row.status@) == Some(u.status),
{
    user_status_round_trip(u.status);
}

#[derive(Debug)]
pub struct RoleRow {
    pub id: u128,
    pub org_id: u128,
    pub key: String,
    pub name: String,
    pub builtin: Option<String>,
    pub is_column: bool,
    pub base_role_id: Option<u128>,
    pub rank: i16,
}

/// Decode a role: a stored builtin key must name a builtin role.
pub fn role_from_row(row: RoleRow) -> (r: Result<Role, RepoError>)
    ensures
        match row.builtin {
            Some(b) => parse_builtin(b@) is None ==> is_decode_error(r, "builtin role"@, b@),
            None => true,
        },
        (row.builtin matches Some(b) ==> parse_builtin(b@) is Some) ==> (r matches Ok(role) && role.id == RoleId(
            row.id,
        ) && role.org_id == OrgId(row.org_id) && role.key == row.key && role.name == row.name && role.builtin == (
        match row.builtin {
            Some(b) => parse_builtin(b@),
            None => None,
        }) && role.is_column == row.is_column && role.base_role_id == (match row.base_role_id {
            Some(b) => Some(RoleId(b)),
            None => None,
        }) && role.rank == row.rank),
{
    let builtin = match &row.builtin {
        Some(s) => match BuiltinRole::from_key(s.as_str()) {
            Some(b) => Some(b),
            None => return Err(decode_err("builtin role", s.as_str())),
        },
        None => None,
    };
    Ok(Role {
        id: RoleId(row.id),
        org_id: OrgId(row.org_id),
        key: row.key,
        name: row.name,
        builtin,
        is_column: row.is_column,
        base_role_id: match row.base_role_id {
            Some(b) => Some(RoleId(b)),
            None => None,
        },
        rank: row.rank,
    })
}

/// The columns of a stored organization.
#[derive(Debug)]
pub struct OrgRow {
    pub id: u128,
    pub name: String,
    pub domain: Option<String>,
    pub owner_id: Option<u128>,
    pub pending_owner_id: Option<u128>,
    pub branding_accent: String,
    pub mfa_enabled: bool,
    pub mfa_method: String,
    pub mfa_enforce: String,
    pub pw_min_length: i16,
    pub pw_require_number: bool,
    pub pw_require_symbol: bool,
    pub pw_rotation_days: Option<i16>,
    pub sso_enabled: bool,
    pub sso_provider: String,
    pub sso_url: Option<String>,
}

/// A stored minimum password length, clamped into `0..=255`.
pub open spec fn clamp_min_length(v: i16) -> u8 {
    if v < 0 {
        0
    } else if v > 255 {
        255
    } else {
        v as u8
    }
}

/// The rotation period read from its `i16` column: negative values read as 0.
pub open spec fn rotation_days_of(d: i16) -> u16 {
    if d < 0 {
        0
    } else {
        d as u16
    }
}

/// Decode an organization: the MFA method, MFA enforcement and SSO provider
/// (checked in that order) must be known; the minimum password length is
/// clamped into `0..=255`, a negative rotation becomes 0, and a missing owner
/// is the nil id.
pub fn org_from_row(row: OrgRow) -> (r: Result<Organization, RepoError>)
    ensures
        parse_mfa_method_of(row.mfa_method@) is None ==> is_decode_error(r, "mfa method"@, row.mfa_method@),
        parse_mfa_method_of(row.mfa_method@) is Some && parse_mfa_enforce_of(row.mfa_enforce@) is None
            ==> is_decode_error(r, "mfa enforce"@, row.mfa_enforce@),
        parse_mfa_method_of(row.mfa_method@) is Some && parse_mfa_enforce_of(row.mfa_enforce@) is Some
            && parse_sso_provider_of(row.sso_provider@) is None ==> is_decode_error(
            r,
            "sso provider"@,
            row.sso_provider@,
        ),
        parse_mfa_method_of(row.mfa_method@) is Some && parse_mfa_enforce_of(row.mfa_enforce@) is Some
            && parse_sso_provider_of(row.sso_provider@) is Some ==> r == Ok::<Organization, RepoError>(
            Organization {
                id: OrgId(row.id),
                name: row.name,
                domain: row.domain,
                owner_id: UserId(
                    match row.owner_id {
                        Some(o) => o,
                        None => 0,
                    },
                ),
                pending_owner_id: match row.pending_owner_id {
                    Some(p) => Some(UserId(p)),
                    None => None,
                },
                branding: Branding { accent_color: row.branding_accent },
                mfa: MfaConfig {
                    enabled: row.mfa_enabled,
                    method: parse_mfa_method_of(row.mfa_method@)->0,
                    enforce: parse_mfa_enforce_of(row.mfa_enforce@)->0,
                },
                password_policy: PasswordPolicy {
                    min_length: clamp_min_length(row.pw_min_length),
                    require_number: row.pw_require_number,
                    require_symbol: row.pw_require_symbol,
                    rotation_days: match row.pw_rotation_days {
                        Some(d) => Some(rotation_days_of(d)),
                        None => None,
                    },
                },
                sso: SsoConfig {
                    enabled: row.sso_enabled,
                    provider: parse_sso_provider_of(row.sso_provider@)->0,
                    url: row.sso_url,
                },
            },
        ),
{
    let method = match parse_mfa_method(row.mfa_method.as_str()) {
        Ok(m) => m,
        Err(e) => return Err(e),
    };
    let enforce = match parse_mfa_enforce(row.mfa_enforce.as_str()) {
        Ok(m) => m,
        Err(e) => return Err(e),
    };
    let provider = match parse_sso_provider(row.sso_provider.as_str()) {
        Ok(p) => p,
        Err(e) => return Err(e),
    };
    let min_length: u8 = if row.pw_min_length < 0 {
        0
    } else if row.pw_min_length > 255 {
        255
    } else {
        row.pw_min_length as u8
    };
    Ok(Organization {
        id: OrgId(row.id),
        name: row.name,
        domain: row.domain,
        owner_id: UserId(
            match row.owner_id {
                Some(o) => o,
                None => 0,
            },
        ),
        pending_owner_id: match row.pending_owner_id {
            Some(p) => Some(UserId(p)),
            None => None,
        },
        branding: Branding { accent_color: row.branding_accent },
        mfa: MfaConfig { enabled: row.mfa_enabled, method, enforce },
        password_policy: PasswordPolicy {
            min_length,
            require_number: row.pw_require_number,
            require_symbol: row.pw_require_symbol,
            rotation_days: match row.pw_rotation_days {
                Some(d) => Some(
                    if d < 0 {
                        0u16
                    } else {
                        d as u16
                    },
                ),
                None => None,
            },
        },
        sso: SsoConfig { enabled: row.sso_enabled, provider, url: row.sso_url },
    })
}

/// The columns of a stored audit event.
/// An organization's policy numbers survive their `i16` columns: the minimum
/// length always, the rotation period whenever it fits in an `i16`.
pub proof fn policy_numbers_round_trip(min_length: u8, rotation_days: u16)
    requires
        rotation_days <= i16::MAX,
    ensures
        clamp_min_length(min_length as i16) == min_length,
        rotation_days_of(rotation_days as i16) == rotation_days,
{
}

#[derive(Debug)]
pub struct AuditRow {
    pub id: u128,
    pub org_id: u128,
    pub ts: Timestamp,
    pub actor_id: u128,
    pub actor_name: String,
    pub actor_role_key: String,
    pub action: String,
    pub category: String,
    pub target: Option<String>,
    pub before_val: Option<String>,
    pub after_val: Option<String>,
    pub ip: Option<String>,
}

/// Decode an audit event: the category must be known.
pub fn audit_from_row(row: AuditRow) -> (r: Result<AuditEvent, RepoError>)
    ensures
        parse_category(row.category@) is None ==> is_decode_error(r, "category"@, row.category@),
        parse_category(row.category@) is Some ==> r == Ok::<AuditEvent, RepoError>(
            AuditEvent {
                id: AuditEventId(row.id),
                org_id: OrgId(row.org_id),
                ts: row.ts,
                actor_id: UserId(row.actor_id),
                actor_name: row.actor_name,
                actor_role_key: row.actor_role_key,
                action: row.action,
                category: parse_category(row.category@)->0,
                target: row.target,
                before: row.before_val,
                after: row.after_val,
                ip: row.ip,
            },
        ),
{
    let category = match PermissionCategory::from_str(row.category.as_str()) {
        Some(c) => c,
        None => return Err(decode_err("category", row.category.as_str())),
    };
    Ok(AuditEvent {
        id: AuditEventId(row.id),
        org_id: OrgId(row.org_id),
        ts: row.ts,
        actor_id: UserId(row.actor_id),
        actor_name: row.actor_name,
        actor_role_key: row.actor_role_key,
        action: row.action,
        category,
        target: row.target,
        before: row.before_val,
        after: row.after_val,
        ip: row.ip,
    })
}

/// The columns of a stored API key. `scopes` is the stored JSON: `None` when
/// it is not an array, otherwise each element's text (`None` for an element
/// that is not a string).
#[derive(Debug)]
pub struct ApiKeyRow {
    pub id: u128,
    pub org_id: u128,
    pub name: String,
    pub prefix: String,
    pub token_hash: String,
    pub scopes: Option<Vec<Option<String>>>,
    pub status: String,
    pub created_at: Timestamp,
    pub last_used_at: Option<Timestamp>,
}

/// The known scopes among stored elements, in order; other elements are
/// skipped.
pub open spec fn known_scopes(items: Seq<Option<String>>) -> Seq<Scope>
    decreases items.len(),
{
    if items.len() == 0 {
        Seq::empty()
    } else {
        let prev = known_scopes(items.drop_last());
        match items.last() {
            Some(t) => match parse_scope(t@) {
                Some(s) => prev.push(s),
                None => prev,
            },
            None => prev,
        }
    }
}

/// Scopes written as their texts read back as the same scopes, in order.
pub proof fn key_scopes_round_trip(scopes: Seq<Scope>, items: Seq<Option<String>>)
    requires
        items.len() == scopes.len(),
        forall|i: int| 0 <= i < items.len() ==> ((#[trigger] items[i]) matches Some(t) && t@ == scope_text(scopes[i])),
    ensures
        known_scopes(items) == scopes,
    decreases items.len(),
{
    if items.len() > 0 {
        let n = items.len() - 1;
        assert(items[n] matches Some(t) && t@ == scope_text(scopes[n]));
        key_scopes_round_trip(scopes.drop_last(), items.drop_last());
        scope_text_round_trip(scopes[n]);
        assert(scopes.drop_last().push(scopes[n]) =~= scopes);
    }
}

/// Decode an API key: the scopes must be stored as an array (unknown
/// elements are skipped), and the status must be known.
pub fn api_key_from_row(row: ApiKeyRow) -> (r: Result<ApiKey, RepoError>)
    ensures
        row.scopes is None ==> is_decode_error(r, "scopes"@, "non-array"@),
        row.scopes is Some && parse_key_status(row.status@) is None ==> is_decode_error(
            r,
            "key status"@,
            row.status@,
        ),
        row.scopes is Some && parse_key_status(row.status@) is Some ==> (r matches Ok(k) && k.id == ApiKeyId(
            row.id,
        ) && k.org_id == OrgId(row.org_id) && k.name == row.name && k.prefix == row.prefix && k.token_hash
            == row.token_hash && k.scopes@ == known_scopes(row.scopes->0@) && Some(k.status) == parse_key_status(
            row.status@,
        ) && k.created_at == row.created_at && k.last_used_at == row.last_used_at),
{
    let items = match &row.scopes {
        Some(v) => v,
        None => return Err(decode_err("scopes", "non-array")),
    };
    let mut scopes: Vec<Scope> = Vec::new();
    let n = items.len();
    let mut i: usize = 0;
    while i < n
        invariant
            n == items@.len(),
            0 <= i <= n,
            scopes@ == known_scopes(items@.subrange(0, i as int)),
        decreases n - i,
    {
        assert(items@.subrange(0, i + 1).drop_last() == items@.subrange(0, i as int));
        match &items[i] {
            Some(t) => match Scope::from_str(t.as_str()) {
                Some(s) => scopes.push(s),
                None => {},
            },
            None => {},
        }
        i = i + 1;
    }
    assert(items@.subrange(0, n as int) == items@);
    let status = match ApiKeyStatus::from_str(row.status.as_str()) {
        Some(s) => s,
        None => return Err(decode_err("key status", row.status.as_str())),
    };
    Ok(ApiKey {
        id: ApiKeyId(row.id),
        org_id: OrgId(row.org_id),
        name: row.name,
        prefix: row.prefix,
        token_hash: row.token_hash,
        scopes,
        status,
        created_at: row.created_at,
        last_used_at: row.last_used_at,
    })
}

/// The columns of a stored session.
#[derive(Debug)]
pub struct SessionRow {
    pub id: String,
    pub user_id: u128,
    pub created_at: Timestamp,
    pub expires_at: Timestamp,
}

/// Decode a session; every stored session decodes.
pub fn session_from_row(row: SessionRow) -> (r: Result<Session, RepoError>)
    ensures
        r matches Ok(s) && s.id.0 == row.id && s.user_id == UserId(row.user_id) && s.created_at == row.created_at
            && s.expires_at == row.expires_at,
{
    Ok(Session {
        id: SessionId(row.id),
        user_id: UserId(row.user_id),
        created_at: row.created_at,
        expires_at: row.expires_at,
    })
}

/// The columns of a stored matrix cell.
#[derive(Debug)]
pub struct CellRow {
    pub action_key: String,
    pub role_id: u128,
    pub state: String,
}

/// Decode a matrix cell: the state must be known.
pub fn cell_state_from_row(row: CellRow) -> (r: Result<(String, RoleId, PermissionState), RepoError>)
    ensures
        parse_state(row.state@) is None ==> is_decode_error(r, "permission state"@, row.state@),
        parse_state(row.state@) is Some ==> r == Ok::<(String, RoleId, PermissionState), RepoError>(
            (row.action_key, RoleId(row.role_id), parse_state(row.state@)->0),
        ),
{
    let state = match PermissionState::from_str(row.state.as_str()) {
        Some(s) => s,
        None => return Err(decode_err("permission state", row.state.as_str())),
    };
    Ok((row.action_key, RoleId(row.role_id), state))
}

} // verus!
