//! Audit records: the draft each mutation produces, the event it becomes,
//! audit search and CSV export.

use crate::entities::audit::AuditEvent;
use crate::entities::permission::{category_text, PermissionCategory};
use crate::entities::Timestamp;
use crate::ids::AuditEventId;
use crate::ports::AuditQuery;
use crate::text::{clone_opt, owned, push_char};
use crate::usecases::ctx::ActorContext;
use vstd::prelude::*;

verus! {

/// What one mutation records: the action, its category, and the
/// target with before/after snapshots.
#[derive(Debug)]
pub struct AuditDraft {
    pub action: String,
    pub category: PermissionCategory,
    pub target: Option<String>,
    pub before: Option<String>,
    pub after: Option<String>,
}

/// An optional text that is present and equal to `t`.
pub open spec fn has_text(o: Option<String>, t: Seq<char>) -> bool {
    o matches Some(s) && s@ == t
}

/// A draft with text snapshots.
pub fn draft(action: &str, category: PermissionCategory, target: String, before: String, after: String) -> (d: AuditDraft)
    ensures
        d.action@ == action@,
        d.category == category,
        d.target == Some(target),
        d.before == Some(before),
        d.after == Some(after),
{
    AuditDraft { action: owned(action), category, target: Some(target), before: Some(before), after: Some(after) }
}

/// The audit event for a draft recorded by the actor of `ctx` at `ts`.
pub fn audit_event(ctx: &ActorContext, id: AuditEventId, ts: Timestamp, draft: AuditDraft) -> (e: AuditEvent)
    ensures
        e.id == id,
        e.org_id == ctx.actor.org_id,
        e.ts == ts,
        e.actor_id == ctx.actor.id,
        e.actor_name == ctx.actor.name,
        e.actor_role_key == ctx.actor_role.key,
        e.action == draft.action,
        e.category == draft.category,
        e.target == draft.target,
        e.before == draft.before,
        e.after == draft.after,
        e.ip == ctx.ip,
{
    AuditEvent {
        id,
        org_id: ctx.actor.org_id,
        ts,
        actor_id: ctx.actor.id,
        actor_name: ctx.actor.name.clone(),
        actor_role_key: ctx.actor_role.key.clone(),
        action: draft.action,
        category: draft.category,
        target: draft.target,
        before: draft.before,
        after: draft.after,
        ip: clone_opt(&ctx.ip),
    }
}

/// The RFC 3339 text that the `time` crate writes for the instant, or empty
/// text where the instant or its formatting is out of range.
pub uninterp spec fn rfc3339_text(ts: i128) -> Seq<char>;

/// Calls `time::OffsetDateTime::from_unix_timestamp_nanos` and formats the
/// instant as RFC 3339; the text is named by [`rfc3339_text`].
#[verifier::external_body]
pub(crate) fn format_rfc3339(ts: Timestamp) -> (s: String)
    ensures
        s@ == rfc3339_text(ts),
{
    time::OffsetDateTime::from_unix_timestamp_nanos(ts)
        .ok()
        .and_then(|t| t.format(&time::format_description::well_known::Rfc3339).ok())
        .unwrap_or_default()
}

/// The search query as run: a non-positive limit becomes 200.
pub fn search_query(query: AuditQuery) -> (q: AuditQuery)
    ensures
        q.category == query.category,
        q.query == query.query,
        q.offset == query.offset,
        q.limit == (if query.limit <= 0 { 200 } else { query.limit }),
{
    let mut q = query;
    if q.limit <= 0 {
        q.limit = 200;
    }
    q
}

/// The export query: the same filters, limit 100 000, offset 0.
pub fn export_query(query: AuditQuery) -> (q: AuditQuery)
    ensures
        q.category == query.category,
        q.query == query.query,
        q.limit == 100_000,
        q.offset == 0,
{
    let mut q = query;
    q.limit = 100_000;
    q.offset = 0;
    q
}

/// Whether a CSV field must be quoted: it holds a comma, quote or line break.
pub open spec fn needs_quotes(s: Seq<char>) -> bool {
    exists|i: int| 0 <= i < s.len() && (s[i] == ',' || s[i] == '"' || s[i] == '\n' || s[i] == '\r')
}

/// The text with every quote doubled.
pub open spec fn double_quotes(s: Seq<char>) -> Seq<char>
    decreases s.len(),
{
    if s.len() == 0 {
        Seq::empty()
    } else {
        double_quotes(s.drop_last()) + if s.last() == '"' {
            seq!['"', '"']
        } else {
            seq![s.last()]
        }
    }
}

/// A CSV field: quoted, with inner quotes doubled, when it needs quotes.
pub open spec fn csv_field_of(s: Seq<char>) -> Seq<char> {
    if needs_quotes(s) {
        seq!['"'] + double_quotes(s) + seq!['"']
    } else {
        s
    }
}

/// Quote a CSV field if it contains a comma, quote, or line break; double
/// inner quotes.
pub fn csv_field(s: &str) -> (r: String)
    ensures
        r@ == csv_field_of(s@),
{
    let n = s.unicode_len();
    let mut quote = false;
    let mut doubled = String::new();
    let mut i: usize = 0;
    while i < n
        invariant
            n == s@.len(),
            0 <= i <= n,
            doubled@ == double_quotes(s@.subrange(0, i as int)),
            quote == exists|j: int|
                0 <= j < i && (s@[j] == ',' || s@[j] == '"' || s@[j] == '\n' || s@[j] == '\r'),
        decreases n - i,
    {
        let c = s.get_char(i);
        if c == ',' || c == '"' || c == '\n' || c == '\r' {
            quote = true;
        }
        push_char(&mut doubled, c);
        if c == '"' {
            push_char(&mut doubled, '"');
        }
        assert(s@.subrange(0, i + 1).drop_last() == s@.subrange(0, i as int));
        i = i + 1;
    }
    assert(s@.subrange(0, n as int) == s@);
    if quote {
        let mut r = String::new();
        push_char(&mut r, '"');
        r.append(doubled.as_str());
        push_char(&mut r, '"');
        r
    } else {
        owned(s)
    }
}

/// An optional text, empty when absent.
pub open spec fn opt_text(o: Option<String>) -> Seq<char> {
    match o {
        Some(s) => s@,
        None => Seq::empty(),
    }
}

/// The exported columns of an event, in header order.
pub open spec fn event_fields(e: AuditEvent) -> Seq<Seq<char>> {
    seq![
        rfc3339_text(e.ts),
        e.actor_name@,
        e.actor_role_key@,
        e.action@,
        category_text(e.category),
        opt_text(e.target),
        opt_text(e.before),
        opt_text(e.after),
        opt_text(e.ip),
    ]
}

/// Fields as CSV, separated by commas.
pub open spec fn csv_join(fields: Seq<Seq<char>>) -> Seq<char>
    decreases fields.len(),
{
    if fields.len() == 0 {
        Seq::empty()
    } else if fields.len() == 1 {
        csv_field_of(fields[0])
    } else {
        csv_join(fields.drop_last()) + seq![','] + csv_field_of(fields.last())
    }
}

/// The CSV header line.
pub open spec fn csv_header() -> Seq<char> {
    "timestamp,actor,role,action,category,target,before,after,ip\n"@
}

/// The CSV lines of the events, in order.
pub open spec fn csv_lines(events: Seq<AuditEvent>) -> Seq<char>
    decreases events.len(),
{
    if events.len() == 0 {
        Seq::empty()
    } else {
        csv_lines(events.drop_last()) + csv_join(event_fields(events.last())) + seq!['\n']
    }
}

/// Append one CSV line for `fields`.
fn push_csv_line(out: &mut String, fields: &[String])
    requires
        fields@.len() > 0,
    ensures
        final(out)@ == old(out)@ + csv_join(fields@.map_values(|f: String| f@)) + seq!['\n'],
{
    let ghost views = fields@.map_values(|f: String| f@);
    let ghost start = out@;
    let n = fields.len();
    let mut i: usize = 0;
    while i < n
        invariant
            n == fields@.len(),
            0 <= i <= n,
            views == fields@.map_values(|f: String| f@),
            out@ == start + csv_join(views.subrange(0, i as int)),
        decreases n - i,
    {
        if i > 0 {
            push_char(out, ',');
        }
        let f = csv_field(fields[i].as_str());
        out.append(f.as_str());
        assert(views.subrange(0, i + 1).drop_last() == views.subrange(0, i as int));
        i = i + 1;
    }
    assert(views.subrange(0, n as int) == views);
    push_char(out, '\n');
}

/// Render audit events as CSV: the header line, then one line per event with
/// the timestamp (RFC 3339), actor, role, action, category, target, before,
/// after and IP, each field quoted as needed.
pub fn render_audit_csv(events: &[AuditEvent]) -> (r: String)
    ensures
        r@ == csv_header() + csv_lines(events@),
{
    let mut out = owned("timestamp,actor,role,action,category,target,before,after,ip\n");
    let n = events.len();
    let mut i: usize = 0;
    while i < n
        invariant
            n == events@.len(),
            0 <= i <= n,
            out@ == csv_header() + csv_lines(events@.subrange(0, i as int)),
        decreases n - i,
    {
        let e = &events[i];
        let fields = vec![
            format_rfc3339(e.ts),
            e.actor_name.clone(),
            e.actor_role_key.clone(),
            e.action.clone(),
            owned(e.category.as_str()),
            match &e.target {
                Some(t) => t.clone(),
                None => String::new(),
            },
            match &e.before {
                Some(t) => t.clone(),
                None => String::new(),
            },
            match &e.after {
                Some(t) => t.clone(),
                None => String::new(),
            },
            match &e.ip {
                Some(t) => t.clone(),
                None => String::new(),
            },
        ];
        assert(fields@.map_values(|f: String| f@) == event_fields(*e));
        push_csv_line(&mut out, fields.as_slice());
        assert(events@.subrange(0, i + 1).drop_last() == events@.subrange(0, i as int));
        i = i + 1;
    }
    assert(events@.subrange(0, n as int) == events@);
    out
}

} // verus!
