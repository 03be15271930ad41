//! Service-account API key use cases: create (token shown once) and revoke.

use crate::entities::api_key::{scope_text, ApiKey, ApiKeyStatus, Scope};
use crate::entities::permission::PermissionCategory;
use crate::entities::Timestamp;
use crate::error::DomainError;
use crate::ids::{uuid_hyphenated, ApiKeyId, OrgId};
use crate::ports::ApiToken;
use crate::text::{owned, trim, trim_ws};
use crate::usecases::audit::{draft, AuditDraft};
use crate::usecases::ctx::ActorContext;
use crate::usecases::error::AppError;
use crate::infra::tokens::{api_token_hash, token_hash_of};
use vstd::prelude::*;

verus! {

/// The result of creating a key: the stored key plus the one-time plaintext
/// token.
#[derive(Debug)]
pub struct CreatedKey {
    pub key: ApiKey,
    /// Shown to the caller exactly once; never stored in plaintext.
    pub token: String,
}

/// Checks a key request: the trimmed name must be non-empty and at least one
/// scope selected. Gives the trimmed name.
pub fn key_request(name: &str, scopes: &Vec<Scope>) -> (r: Result<String, AppError>)
    ensures
        trim_ws(name@).len() == 0 ==> (r matches Err(AppError::Domain(DomainError::Invalid(m)))
            && m@ == "name is required"@),
        trim_ws(name@).len() > 0 && scopes@.len() == 0 ==> (r matches Err(
            AppError::Domain(DomainError::Invalid(m)),
        ) && m@ == "select at least one scope"@),
        trim_ws(name@).len() > 0 && scopes@.len() > 0 ==> (r matches Ok(n) && n@ == trim_ws(name@)),
{
    let n = trim(name);
    if n.as_str().unicode_len() == 0 {
        return Err(AppError::Domain(DomainError::Invalid(owned("name is required"))));
    }
    if scopes.len() == 0 {
        return Err(AppError::Domain(DomainError::Invalid(owned("select at least one scope"))));
    }
    Ok(n)
}

/// The scopes' texts joined by `", "`.
pub open spec fn scope_list(scopes: Seq<Scope>) -> Seq<char>
    decreases scopes.len(),
{
    if scopes.len() == 0 {
        Seq::empty()
    } else if scopes.len() == 1 {
        scope_text(scopes[0])
    } else {
        scope_list(scopes.drop_last()) + ", "@ + scope_text(scopes.last())
    }
}

/// The scopes' texts joined by `", "`.
pub fn join_scopes(scopes: &Vec<Scope>) -> (r: String)
    ensures
        r@ == scope_list(scopes@),
{
    let mut out = String::new();
    let n = scopes.len();
    let mut i: usize = 0;
    while i < n
        invariant
            n == scopes@.len(),
            0 <= i <= n,
            out@ == scope_list(scopes@.subrange(0, i as int)),
        decreases n - i,
    {
        if i > 0 {
            out.append(", ");
        }
        out.append(scopes[i].as_str());
        assert(scopes@.subrange(0, i + 1).drop_last() == scopes@.subrange(0, i as int));
        i = i + 1;
    }
    assert(scopes@.subrange(0, n as int) == scopes@);
    out
}

/// A new active key of the actor's organization: the token's prefix and the
/// hash of its full text (hex of its SHA-256) are stored, never the token
/// itself; the token is handed back once. The audit draft is `key.create`
/// with the scope list.
pub fn plan_api_key(
    ctx: &ActorContext,
    id: ApiKeyId,
    name: String,
    token: ApiToken,
    scopes: Vec<Scope>,
    now: Timestamp,
) -> (r: (CreatedKey, AuditDraft))
    ensures
        r.0.key.id == id,
        r.0.key.org_id == ctx.actor.org_id,
        r.0.key.name == name,
        r.0.key.prefix == token.prefix,
        r.0.key.token_hash@ == token_hash_of(token.full@),
        r.0.key.scopes == scopes,
        r.0.key.status == ApiKeyStatus::Active,
        r.0.key.created_at == now,
        r.0.key.last_used_at is None,
        r.0.token == token.full,
        token.full@.len() != 64 ==> r.0.key.token_hash@ != r.0.token@,
        r.1.action@ == "key.create"@,
        r.1.category == PermissionCategory::Keys,
        r.1.target == Some(name),
        r.1.before matches Some(b) && b@ == "—"@,
        r.1.after matches Some(a) && a@ == "scopes: "@ + scope_list(scopes@),
{
    let token_hash = api_token_hash(token.full.as_str());
    let mut after = owned("scopes: ");
    let list = join_scopes(&scopes);
    after.append(list.as_str());
    let d = draft("key.create", PermissionCategory::Keys, name.clone(), owned("—"), after);
    let key = ApiKey {
        id,
        org_id: ctx.actor.org_id,
        name,
        prefix: token.prefix,
        token_hash,
        scopes,
        status: ApiKeyStatus::Active,
        created_at: now,
        last_used_at: None,
    };
    (CreatedKey { key, token: token.full }, d)
}

/// The key with id `id`, only when it belongs to organization `org`.
pub fn key_in_org(found: Option<ApiKey>, org: OrgId, id: ApiKeyId) -> (r: Result<ApiKey, AppError>)
    ensures
        match found {
            Some(k) => if k.org_id == org {
                r == Ok::<ApiKey, AppError>(k)
            } else {
                r matches Err(AppError::Domain(DomainError::NotFound(m))) && m@ == "api key "@ + uuid_hyphenated(id.0)
            },
            None => r matches Err(AppError::Domain(DomainError::NotFound(m))) && m@ == "api key "@
                + uuid_hyphenated(id.0),
        },
{
    match found {
        Some(k) => {
            if k.org_id == org {
                return Ok(k);
            }
        },
        None => {},
    }
    let mut m = owned("api key ");
    let t = id.text();
    m.append(t.as_str());
    Err(AppError::Domain(DomainError::NotFound(m)))
}

/// The audit draft of revoking a key.
pub fn revoke_draft(key: &ApiKey) -> (d: AuditDraft)
    ensures
        d.action@ == "key.revoke"@,
        d.category == PermissionCategory::Keys,
        d.target == Some(key.name),
        d.before matches Some(b) && b@ == "Active"@,
        d.after matches Some(a) && a@ == "Revoked"@,
{
    draft("key.revoke", PermissionCategory::Keys, key.name.clone(), owned("Active"), owned("Revoked"))
}

} // verus!
