//! Role use cases: creating custom roles that copy a base role.

use crate::entities::permission::PermissionCategory;
use crate::entities::role::Role;
use crate::error::DomainError;
use crate::ids::{uuid_hyphenated, RoleId};
use crate::services::role_guards::check_no_privilege_escalation;
use crate::text::{is_whitespace, owned, push_char, to_lowercase, trim, trim_ws, unicode_lowercase, unicode_whitespace};
use crate::usecases::audit::{draft, AuditDraft};
use crate::usecases::ctx::ActorContext;
use crate::usecases::error::AppError;
use crate::usecases::users::refused_for_escalation;
use vstd::prelude::*;

verus! {

/// A character a slug keeps as it is: an ASCII lower-case letter or digit.
pub open spec fn slug_char(c: char) -> bool {
    ('a' <= c && c <= 'z') || ('0' <= c && c <= '9')
}

/// A slug's shape: only `[a-z0-9_]`, no `__`, and no `_` at either end.
pub open spec fn slug_shaped(s: Seq<char>) -> bool {
    &&& forall|i: int| 0 <= i < s.len() ==> slug_char(#[trigger] s[i]) || s[i] == '_'
    &&& forall|i: int, j: int| #![trigger s[i], s[j]] 0 <= i && j == i + 1 && j < s.len() ==> !(s[i] == '_' && s[j] == '_')
    &&& s.len() > 0 ==> s[0] != '_' && s[s.len() - 1] != '_'
}

/// The slug characters before trimming underscores: ASCII lower-case letters
/// and digits are kept, and each run of whitespace, `-` and `_` becomes one
/// `_` (none directly after another `_`); everything else is dropped.
pub open spec fn slug_raw(s: Seq<char>) -> Seq<char>
    decreases s.len(),
{
    if s.len() == 0 {
        Seq::empty()
    } else {
        let p = slug_raw(s.drop_last());
        let c = s.last();
        if slug_char(c) {
            p.push(c)
        } else if (unicode_whitespace(c) || c == '-' || c == '_') && !(p.len() > 0 && p.last() == '_') {
            p.push('_')
        } else {
            p
        }
    }
}

/// The index of the first character at or after `i` that is not `_`.
pub open spec fn lead_us(s: Seq<char>, i: int) -> int
    decreases s.len() - i,
{
    if i >= s.len() {
        s.len() as int
    } else if s[i] == '_' {
        lead_us(s, i + 1)
    } else {
        i
    }
}

/// One past the last character before `j` and at or after `lo` that is not
/// `_`.
pub open spec fn trail_us(s: Seq<char>, j: int, lo: int) -> int
    decreases j - lo,
{
    if j <= lo {
        lo
    } else if s[j - 1] == '_' {
        trail_us(s, j - 1, lo)
    } else {
        j
    }
}

/// `str::trim_matches('_')`.
pub open spec fn trim_us(s: Seq<char>) -> Seq<char> {
    let a = lead_us(s, 0);
    s.subrange(a, trail_us(s, s.len() as int, a))
}

/// The slug of a role name: trimmed, lower-cased, reduced to `[a-z0-9_]`
/// style characters, with no leading or trailing `_`.
pub open spec fn slug_of(name: Seq<char>) -> Seq<char> {
    trim_us(slug_raw(unicode_lowercase(trim_ws(name))))
}

/// `"Stager Pro"` → `"stager_pro"`: keeps `[a-z0-9_]` only.
pub fn slugify(name: &str) -> (r: String)
    ensures
        r@ == slug_of(name@),
        slug_shaped(r@),
{
    let trimmed = trim(name);
    let lower = to_lowercase(trimmed.as_str());
    let l = lower.as_str();
    let n = l.unicode_len();
    let mut raw: Vec<char> = Vec::new();
    let mut i: usize = 0;
    while i < n
        invariant
            n == l@.len(),
            0 <= i <= n,
            raw@ == slug_raw(l@.subrange(0, i as int)),
            forall|q: int| 0 <= q < raw@.len() ==> slug_char(#[trigger] raw@[q]) || raw@[q] == '_',
            forall|q: int, j: int|
                #![trigger raw@[q], raw@[j]]
                0 <= q && j == q + 1 && j < raw@.len() ==> !(raw@[q] == '_' && raw@[j] == '_'),
        decreases n - i,
    {
        let c = l.get_char(i);
        assert(l@.subrange(0, i + 1).drop_last() == l@.subrange(0, i as int));
        if ('a' <= c && c <= 'z') || ('0' <= c && c <= '9') {
            raw.push(c);
        } else if (is_whitespace(c) || c == '-' || c == '_') && !(raw.len() > 0 && raw[raw.len() - 1] == '_') {
            raw.push('_');
        }
        i = i + 1;
    }
    assert(l@.subrange(0, n as int) == l@);
    let m = raw.len();
    let mut a: usize = 0;
    while a < m
        invariant
            m == raw@.len(),
            0 <= a <= m,
            lead_us(raw@, a as int) == lead_us(raw@, 0),
        ensures
            lead_us(raw@, 0) == a,
            a < m ==> raw@[a as int] != '_',
        decreases m - a,
    {
        if raw[a] != '_' {
            break;
        }
        a = a + 1;
    }
    let mut b: usize = m;
    while b > a
        invariant
            m == raw@.len(),
            a <= b <= m,
            trail_us(raw@, b as int, a as int) == trail_us(raw@, m as int, a as int),
        ensures
            trail_us(raw@, m as int, a as int) == b,
            a <= b,
            b > a ==> raw@[b - 1] != '_',
        decreases b - a,
    {
        if raw[b - 1] != '_' {
            break;
        }
        b = b - 1;
    }
    let mut out = String::new();
    let mut k: usize = a;
    while k < b
        invariant
            a <= k <= b <= m,
            m == raw@.len(),
            out@ == raw@.subrange(a as int, k as int),
        decreases b - k,
    {
        push_char(&mut out, raw[k]);
        assert(raw@.subrange(a as int, k + 1) == raw@.subrange(a as int, k as int).push(raw@[k as int]));
        k = k + 1;
    }
    assert(out@ =~= raw@.subrange(a as int, b as int));
    out
}

/// The trimmed name and the key of a custom role; an empty name is refused.
pub fn custom_role_name(name: &str) -> (r: Result<(String, String), AppError>)
    ensures
        r is Ok <==> trim_ws(name@).len() > 0,
        r is Err ==> (r matches Err(AppError::Domain(DomainError::Invalid(m))) && m@ == "role name is required"@),
        r matches Ok((n, k)) ==> n@ == trim_ws(name@) && k@ == slug_of(trim_ws(name@)),
{
    let trimmed = trim(name);
    if trimmed.as_str().unicode_len() == 0 {
        return Err(AppError::Domain(DomainError::Invalid(owned("role name is required"))));
    }
    let key = slugify(trimmed.as_str());
    Ok((trimmed, key))
}

/// Refuses a role key another role already holds.
pub fn ensure_role_key_free(taken: bool) -> (r: Result<(), AppError>)
    ensures
        r is Ok <==> !taken,
        r is Err ==> (r matches Err(AppError::Domain(DomainError::Conflict(m)))
            && m@ == "a role with that name already exists"@),
{
    if taken {
        Err(AppError::Domain(DomainError::Conflict(owned("a role with that name already exists"))))
    } else {
        Ok(())
    }
}

/// The error for a base role id that names no role.
pub fn base_role_missing(id: RoleId) -> (e: DomainError)
    ensures
        e matches DomainError::NotFound(m) && m@ == "base role "@ + uuid_hyphenated(id.0),
{
    let mut m = owned("base role ");
    let t = id.text();
    m.append(t.as_str());
    DomainError::NotFound(m)
}

/// A custom column role of the actor's organization at its base role's
/// tier, copying the base. It can never exceed the actor's own level: a base
/// ranked above the actor is refused as an escalation. The audit draft is
/// `role.create`.
pub fn plan_custom_role(
    ctx: &ActorContext,
    id: RoleId,
    name: String,
    key: String,
    base: &Role,
) -> (r: Result<(Role, AuditDraft), AppError>)
    ensures
        r is Ok <==> base.rank <= ctx.actor_role.rank,
        r is Err ==> refused_for_escalation(r, ctx.actor_role, *base),
        r matches Ok((role, d)) ==> {
            &&& role == (Role {
                id,
                org_id: ctx.actor.org_id,
                key,
                name,
                builtin: None,
                is_column: true,
                base_role_id: Some(base.id),
                rank: base.rank,
            })
            &&& d.action@ == "role.create"@
            &&& d.category == PermissionCategory::Roles
            &&& d.target matches Some(t) && t@ == name@ + " (custom)"@
            &&& d.before matches Some(b) && b@ == "—"@
            &&& d.after matches Some(a) && a@ == "inherits "@ + base.name@
        },
{
    match check_no_privilege_escalation(&ctx.actor_role, base) {
        Ok(()) => {},
        Err(e) => return Err(AppError::Domain(e)),
    }
    let mut target = name.clone();
    target.append(" (custom)");
    let mut after = owned("inherits ");
    after.append(base.name.as_str());
    let role = Role {
        id,
        org_id: ctx.actor.org_id,
        key,
        name,
        builtin: None,
        is_column: true,
        base_role_id: Some(base.id),
        rank: base.rank,
    };
    let d = draft("role.create", PermissionCategory::Roles, target, owned("—"), after);
    Ok((role, d))
}

} // verus!
