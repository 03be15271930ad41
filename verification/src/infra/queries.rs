//! The values the listing queries bind: the case-insensitive search pattern
//! and the audit log's page bounds.

use crate::ports::AuditQuery;
use crate::text::{concat, to_lowercase, unicode_lowercase};
use vstd::prelude::*;

verus! {

/// The `LIKE` pattern of a case-insensitive substring search: the query
/// lower-cased, between `%` wildcards.
pub fn like_pattern(query: &str) -> (r: String)
    ensures
        r@ == "%"@ + unicode_lowercase(query@) + "%"@,
{
    let lower = to_lowercase(query);
    let mut r = concat("%", lower.as_str());
    r.append("%");
    r
}

/// The limit and offset of an audit search page: a non-positive limit means
/// 200, and a negative offset 0.
pub fn audit_page(query: &AuditQuery) -> (r: (i64, i64))
    ensures
        r.0 == (if query.limit > 0 { query.limit } else { 200 }),
        r.1 == (if query.offset < 0 { 0 } else { query.offset }),
{
    let limit = if query.limit > 0 {
        query.limit
    } else {
        200
    };
    let offset = if query.offset < 0 {
        0
    } else {
        query.offset
    };
    (limit, offset)
}

} // verus!
