//! User identity use cases: invite, change role, activate and deactivate.
//! No privilege escalation, last-admin protection, and session revocation
//! when access is reduced.

use crate::entities::email::{local_part_of, Email};
use crate::entities::role::{builtin_rank, BuiltinRole, Role};
use crate::entities::user::{user_status_text, User, UserStatus};
use crate::entities::permission::PermissionCategory;
use crate::entities::Timestamp;
use crate::error::DomainError;
use crate::ids::{uuid_hyphenated, RoleId, UserId};
use crate::services::role_guards::{check_last_admin, check_no_privilege_escalation, escalation_message};
use crate::text::{is_whitespace, owned, push_char, to_uppercase, unicode_uppercase, unicode_whitespace};
use crate::usecases::audit::{draft, AuditDraft};
use crate::usecases::ctx::ActorContext;
use crate::usecases::error::AppError;
use vstd::prelude::*;

verus! {

/// An admin-level role: the builtin Owner or Admin, the roles that last-admin
/// protection counts.
pub open spec fn admin_level(role: Role) -> bool {
    role.builtin == Some(BuiltinRole::Owner) || role.builtin == Some(BuiltinRole::Admin)
}

/// Whether a role is admin-level.
pub fn is_admin_role(role: &Role) -> (r: bool)
    ensures
        r == admin_level(*role),
{
    match role.builtin {
        Some(BuiltinRole::Owner) | Some(BuiltinRole::Admin) => true,
        _ => false,
    }
}

/// Dots and underscores read as spaces.
pub open spec fn spaced(s: Seq<char>) -> Seq<char> {
    s.map_values(|c: char| if c == '.' || c == '_' { ' ' } else { c })
}

/// `str::split_whitespace`: the maximal runs of non-whitespace characters.
pub open spec fn words_of(s: Seq<char>) -> Seq<Seq<char>>
    decreases s.len(),
{
    if s.len() == 0 {
        Seq::empty()
    } else {
        let p = s.drop_last();
        let prev = words_of(p);
        let c = s.last();
        if unicode_whitespace(c) {
            prev
        } else if p.len() == 0 || unicode_whitespace(p.last()) {
            prev.push(seq![c])
        } else {
            prev.drop_last().push(prev.last().push(c))
        }
    }
}

/// A word with its first character upper-cased (by `char::to_uppercase`).
pub open spec fn capitalized(w: Seq<char>) -> Seq<char> {
    if w.len() == 0 {
        Seq::empty()
    } else {
        unicode_uppercase(w[0]) + w.drop_first()
    }
}

/// The words capitalized and joined by single spaces.
pub open spec fn title_words(ws: Seq<Seq<char>>) -> Seq<char>
    decreases ws.len(),
{
    if ws.len() == 0 {
        Seq::empty()
    } else if ws.len() == 1 {
        capitalized(ws[0])
    } else {
        title_words(ws.drop_last()) + seq![' '] + capitalized(ws.last())
    }
}

/// The display name derived from an email: the local part, with dots and
/// underscores as spaces, split into words, each capitalized, joined by
/// spaces. `aoife.brennan` becomes `Aoife Brennan`.
pub open spec fn derived_name(email: Seq<char>) -> Seq<char> {
    title_words(words_of(spaced(local_part_of(email))))
}

/// Derive a display name from an email's local part.
pub fn derive_name(email: &Email) -> (r: String)
    ensures
        r@ == derived_name(email@),
{
    let local = email.local_part();
    let ghost s = spaced(local@);
    let n = local.unicode_len();
    let mut out = String::new();
    let mut in_word = false;
    let mut any_word = false;
    let mut i: usize = 0;
    while i < n
        invariant
            n == local@.len(),
            s == spaced(local@),
            0 <= i <= n,
            out@ == title_words(words_of(s.subrange(0, i as int))),
            in_word == (i > 0 && !unicode_whitespace(s[i - 1])),
            in_word ==> words_of(s.subrange(0, i as int)).len() > 0,
            any_word == (words_of(s.subrange(0, i as int)).len() > 0),
        decreases n - i,
    {
        let raw = local.get_char(i);
        let c = if raw == '.' || raw == '_' {
            ' '
        } else {
            raw
        };
        let ghost p = s.subrange(0, i as int);
        let ghost q = s.subrange(0, i + 1);
        let ghost prev = words_of(p);
        assert(q.drop_last() == p);
        assert(q.last() == c);
        if is_whitespace(c) {
            in_word = false;
        } else if !in_word {
            if any_word {
                push_char(&mut out, ' ');
            }
            let up = to_uppercase(c);
            out.append(up.as_str());
            proof {
                let nw = prev.push(seq![c]);
                assert(nw.drop_last() == prev);
                assert(capitalized(seq![c]) == unicode_uppercase(c) + Seq::<char>::empty());
                assert(unicode_uppercase(c) + Seq::<char>::empty() == unicode_uppercase(c));
                if prev.len() == 0 {
                    assert(title_words(nw) == capitalized(seq![c]));
                }
            }
            in_word = true;
            any_word = true;
        } else {
            push_char(&mut out, c);
            proof {
                let w = prev.last();
                let w2 = w.push(c);
                let nw = prev.drop_last().push(w2);
                lemma_words_nonempty(p);
                assert(w.len() > 0);
                assert(w2.drop_first() == w.drop_first().push(c));
                assert(capitalized(w2) == capitalized(w).push(c));
                assert(nw.drop_last() == prev.drop_last());
                if prev.len() == 1 {
                    assert(title_words(nw) == capitalized(w2));
                    assert(title_words(prev) == capitalized(w));
                } else {
                    assert(prev.drop_last().len() > 0);
                    assert(title_words(nw) == title_words(prev.drop_last()) + seq![' '] + capitalized(w2));
                    assert(title_words(prev) == title_words(prev.drop_last()) + seq![' '] + capitalized(w));
                }
            }
        }
        i = i + 1;
    }
    assert(s.subrange(0, n as int) == s);
    out
}

/// Every word of a split is non-empty, and a text ending in a non-whitespace
/// character has at least one word.
proof fn lemma_words_nonempty(s: Seq<char>)
    ensures
        forall|k: int| 0 <= k < words_of(s).len() ==> (#[trigger] words_of(s)[k]).len() > 0,
        s.len() > 0 && !unicode_whitespace(s.last()) ==> words_of(s).len() > 0,
    decreases s.len(),
{
    if s.len() > 0 {
        let p = s.drop_last();
        let prev = words_of(p);
        let c = s.last();
        lemma_words_nonempty(p);
        if unicode_whitespace(c) {
        } else if p.len() == 0 || unicode_whitespace(p.last()) {
            let w = prev.push(seq![c]);
            assert forall|k: int| 0 <= k < w.len() implies (#[trigger] w[k]).len() > 0 by {
                if k < prev.len() {
                    assert(w[k] == prev[k]);
                }
            }
        } else {
            let w = prev.drop_last().push(prev.last().push(c));
            assert forall|k: int| 0 <= k < w.len() implies (#[trigger] w[k]).len() > 0 by {
                if k < prev.len() - 1 {
                    assert(w[k] == prev[k]);
                }
            }
        }
    }
}

/// Refuses an email that another user already holds.
pub fn ensure_email_free(taken: bool) -> (r: Result<(), AppError>)
    ensures
        r is Ok <==> !taken,
        r is Err ==> (r matches Err(AppError::Domain(DomainError::Conflict(m)))
            && m@ == "a user with that email already exists"@),
{
    if taken {
        Err(AppError::Domain(DomainError::Conflict(owned("a user with that email already exists"))))
    } else {
        Ok(())
    }
}

/// The role key an invitation uses: `member` when none is given.
pub fn invite_role_key(role_key: &str) -> (r: &str)
    ensures
        r@ == (if role_key@.len() == 0 { "member"@ } else { role_key@ }),
{
    if role_key.unicode_len() == 0 {
        "member"
    } else {
        role_key
    }
}

/// The error for a role key that names no role.
pub fn role_key_missing(key: &str) -> (e: DomainError)
    ensures
        e matches DomainError::NotFound(m) && m@ == "role '"@ + key@ + "'"@,
{
    let mut m = owned("role '");
    m.append(key);
    m.append("'");
    DomainError::NotFound(m)
}

/// The error for a user id that names no user.
pub fn user_missing(id: UserId) -> (e: DomainError)
    ensures
        e matches DomainError::NotFound(m) && m@ == "user "@ + uuid_hyphenated(id.0),
{
    let mut m = owned("user ");
    let t = id.text();
    m.append(t.as_str());
    DomainError::NotFound(m)
}

/// The error for a role id that names no role.
pub fn role_missing(id: RoleId) -> (e: DomainError)
    ensures
        e matches DomainError::NotFound(m) && m@ == "role "@ + uuid_hyphenated(id.0),
{
    let mut m = owned("role ");
    let t = id.text();
    m.append(t.as_str());
    DomainError::NotFound(m)
}

/// The "after" snapshot of an invitation: the role name and the scope (or a
/// dash).
pub open spec fn invite_after(role_name: Seq<char>, scope: Option<String>) -> Seq<char> {
    role_name + " · "@ + match scope {
        Some(s) => s@,
        None => "—"@,
    }
}

/// An invitation refused for escalation carries the escalation message.
pub open spec fn refused_for_escalation<T>(r: Result<T, AppError>, actor: Role, target: Role) -> bool {
    r matches Err(AppError::Domain(DomainError::PrivilegeEscalation(m))) && m@ == escalation_message(actor, target)
}

/// Invite a user at `role`: refused when the role ranks above the actor's
/// own; otherwise a new invited user of the actor's organization, named from
/// the email, with no password, and the audit draft `user.invite`.
pub fn plan_invite(
    ctx: &ActorContext,
    email: Email,
    role: &Role,
    scope: Option<String>,
    id: UserId,
    now: Timestamp,
) -> (r: Result<(User, AuditDraft), AppError>)
    ensures
        r is Ok <==> role.rank <= ctx.actor_role.rank,
        r is Err ==> refused_for_escalation(r, ctx.actor_role, *role),
        r matches Ok((u, d)) ==> {
            &&& u.id == id
            &&& u.org_id == ctx.actor.org_id
            &&& u.email == email
            &&& u.name@ == derived_name(email@)
            &&& u.role_id == role.id
            &&& u.status == UserStatus::Invited
            &&& u.scope == scope
            &&& u.password_hash is None
            &&& u.created_at == now
            &&& u.last_active_at is None
            &&& d.action@ == "user.invite"@
            &&& d.category == PermissionCategory::Users
            &&& d.target matches Some(t) && t@ == email@
            &&& d.before matches Some(b) && b@ == "—"@
            &&& d.after matches Some(a) && a@ == invite_after(role.name@, scope)
        },
{
    match check_no_privilege_escalation(&ctx.actor_role, role) {
        Ok(()) => {},
        Err(e) => return Err(AppError::Domain(e)),
    }
    let name = derive_name(&email);
    let mut after = role.name.clone();
    after.append(" · ");
    match &scope {
        Some(s) => after.append(s.as_str()),
        None => after.append("—"),
    }
    let target = owned(email.as_str());
    let user = User {
        id,
        org_id: ctx.actor.org_id,
        email,
        name,
        role_id: role.id,
        status: UserStatus::Invited,
        scope,
        password_hash: None,
        created_at: now,
        last_active_at: None,
    };
    let d = draft("user.invite", PermissionCategory::Users, target, owned("—"), after);
    Ok((user, d))
}

/// Whether a change from `current` to `new_role` drops an admin.
pub fn removes_admin(current: &Role, new_role: &Role) -> (r: bool)
    ensures
        r == (admin_level(*current) && !admin_level(*new_role)),
{
    is_admin_role(current) && !is_admin_role(new_role)
}

/// Whether a role change needs the count of active admins: it is not refused
/// for escalation and it drops an admin.
pub fn role_change_needs_admin_count(ctx: &ActorContext, current: &Role, new_role: &Role) -> (r: bool)
    ensures
        r == (new_role.rank <= ctx.actor_role.rank && admin_level(*current) && !admin_level(*new_role)),
{
    new_role.rank <= ctx.actor_role.rank && removes_admin(current, new_role)
}

/// The outcome of a role change.
#[derive(Debug)]
pub enum RoleChange {
    /// The user already holds the role: nothing changes, nothing is audited.
    Unchanged(User),
    /// The user with the new role, to be stored (sessions revoked) and audited.
    Changed(User, AuditDraft),
}

/// Change `target`'s role from `current` to `new_role` (whose id is
/// `new_role_id`). Refused for escalation above the actor's rank, then for
/// demoting the last active admin (`active_admins` is only read when the
/// change drops an admin); a no-op when the user already holds the role.
pub fn plan_role_change(
    ctx: &ActorContext,
    target: User,
    current: &Role,
    new_role: &Role,
    new_role_id: RoleId,
    active_admins: u64,
) -> (r: Result<RoleChange, AppError>)
    ensures
        new_role.rank > ctx.actor_role.rank ==> refused_for_escalation(r, ctx.actor_role, *new_role),
        (new_role.rank <= ctx.actor_role.rank && active_admins <= 1 && (current.builtin == Some(BuiltinRole::Owner)
            || current.builtin == Some(BuiltinRole::Admin)) && new_role.builtin != Some(BuiltinRole::Owner)
            && new_role.builtin != Some(BuiltinRole::Admin)) ==> r matches Err(
            AppError::Domain(DomainError::LastAdminProtected(_)),
        ),
        new_role.rank <= ctx.actor_role.rank ==> {
            if admin_level(*current) && !admin_level(*new_role) && active_admins <= 1 {
                r matches Err(AppError::Domain(DomainError::LastAdminProtected(m)))
                    && m@ == "the organization must retain at least one active administrator"@
            } else if target.role_id == new_role_id {
                r == Ok::<RoleChange, AppError>(RoleChange::Unchanged(target))
            } else {
                r matches Ok(RoleChange::Changed(u, d)) && u == (User { role_id: new_role_id, ..target })
                    && d.action@ == "role.assign"@ && d.category == PermissionCategory::Roles
                    && d.target == Some(target.name) && d.before == Some(current.name)
                    && d.after == Some(new_role.name)
            }
        },
{
    match check_no_privilege_escalation(&ctx.actor_role, new_role) {
        Ok(()) => {},
        Err(e) => return Err(AppError::Domain(e)),
    }
    if removes_admin(current, new_role) {
        match check_last_admin(active_admins, true) {
            Ok(()) => {},
            Err(e) => return Err(AppError::Domain(e)),
        }
    }
    if target.role_id == new_role_id {
        return Ok(RoleChange::Unchanged(target));
    }
    let name = target.name.clone();
    let mut user = target;
    user.role_id = new_role_id;
    let d = draft("role.assign", PermissionCategory::Roles, name, current.name.clone(), new_role.name.clone());
    Ok(RoleChange::Changed(user, d))
}

/// Whether setting `status` on a user of `role` needs the count of active
/// admins: deactivating an admin-level user.
pub fn status_needs_admin_count(role: &Role, status: UserStatus) -> (r: bool)
    ensures
        r == (status == UserStatus::Deactivated && admin_level(*role)),
{
    status == UserStatus::Deactivated && is_admin_role(role)
}

/// Whether setting `status` revokes the user's sessions: deactivation does.
pub fn status_revokes_sessions(status: UserStatus) -> (r: bool)
    ensures
        r == (status == UserStatus::Deactivated),
{
    status == UserStatus::Deactivated
}

/// Set `target`'s status. Deactivating the last active admin is refused;
/// reactivation stamps the last-active time; the audit draft records the
/// before and after status.
pub fn plan_status_change(
    target: User,
    role: &Role,
    status: UserStatus,
    active_admins: u64,
    now: Timestamp,
) -> (r: Result<(User, AuditDraft), AppError>)
    ensures
        r is Err <==> status == UserStatus::Deactivated && admin_level(*role) && active_admins <= 1,
        (status == UserStatus::Deactivated && active_admins <= 1 && (role.builtin == Some(BuiltinRole::Owner)
            || role.builtin == Some(BuiltinRole::Admin))) ==> r matches Err(
            AppError::Domain(DomainError::LastAdminProtected(_)),
        ),
        r is Err ==> (r matches Err(AppError::Domain(DomainError::LastAdminProtected(m)))
            && m@ == "the organization must retain at least one active administrator"@),
        r matches Ok((u, d)) ==> {
            &&& u == (User {
                status,
                last_active_at: if status == UserStatus::Active {
                    Some(now)
                } else {
                    target.last_active_at
                },
                ..target
            })
            &&& d.action@ == (if status == UserStatus::Deactivated {
                "user.deactivate"@
            } else {
                "user.reactivate"@
            })
            &&& d.category == PermissionCategory::Users
            &&& d.target == Some(target.name)
            &&& d.before matches Some(b) && b@ == user_status_text(target.status)
            &&& d.after matches Some(a) && a@ == user_status_text(status)
        },
{
    if status_needs_admin_count(role, status) {
        match check_last_admin(active_admins, true) {
            Ok(()) => {},
            Err(e) => return Err(AppError::Domain(e)),
        }
    }
    let before = target.status;
    let name = target.name.clone();
    let mut user = target;
    user.status = status;
    if status == UserStatus::Active {
        user.last_active_at = Some(now);
    }
    let action = if status == UserStatus::Deactivated {
        "user.deactivate"
    } else {
        "user.reactivate"
    };
    let d = draft(action, PermissionCategory::Users, name, owned(before.as_str()), owned(status.as_str()));
    Ok((user, d))
}

/// Last-admin protection counts exactly the builtin roles ranked at or above
/// Admin: the Owner and the Admin. Custom roles and every lower builtin role
/// are not admin-level, whatever their rank.
pub proof fn admin_level_is_admin_rank_or_above(role: Role)
    ensures
        admin_level(role) <==> (role.builtin matches Some(b) && builtin_rank(b) >= builtin_rank(BuiltinRole::Admin)),
{
}

/// The sole remaining admin-level user is protected whichever of the two
/// admin-level roles it holds: deactivating it, or moving it to a role that is
/// not admin-level, needs a second active administrator.
pub proof fn last_admin_protection_covers_owner_and_admin(current: Role, new_role: Role)
    requires
        current.builtin == Some(BuiltinRole::Owner) || current.builtin == Some(BuiltinRole::Admin),
        new_role.builtin is None || (new_role.builtin matches Some(b) && builtin_rank(b) < builtin_rank(
            BuiltinRole::Admin,
        )),
    ensures
        admin_level(current),
        admin_level(current) && !admin_level(new_role),
{
}

} // verus!
