//! Mapping storage failures onto the domain's [`RepoError`].

use crate::error::RepoError;
use crate::text::{concat, str_eq};
use vstd::prelude::*;

verus! {

/// The text that `str`'s `Debug` writes: the string quoted, with escapes.
pub uninterp spec fn debug_quoted(s: Seq<char>) -> Seq<char>;

/// Calls `str`'s `Debug` formatting; the text is named by [`debug_quoted`].
#[verifier::external_body]
pub(crate) fn debug_text(s: &str) -> (r: String)
    ensures
        r@ == debug_quoted(s@),
{
    format!("{s:?}")
}

/// The message of an undecodable stored value.
pub open spec fn decode_message(what: Seq<char>, value: Seq<char>) -> Seq<char> {
    "invalid "@ + what + " in database: "@ + debug_quoted(value)
}

/// A value that could not be decoded into a domain enum or type.
pub fn decode_err(what: &str, value: &str) -> (e: RepoError)
    ensures
        e matches RepoError::Other(m) && m@ == decode_message(what@, value@),
{
    let mut m = concat("invalid ", what);
    m.append(" in database: ");
    let q = debug_text(value);
    m.append(q.as_str());
    RepoError::Other(m)
}

/// A storage failure as a repository error. `database` holds the SQLSTATE
/// code and message of a database error; unique violations (SQLSTATE
/// `23505`) become `UniqueViolation` with the database's message, everything
/// else `Other` with the failure's display text.
pub fn map_db_error(database: Option<(Option<String>, String)>, display: String) -> (e: RepoError)
    ensures
        match database {
            Some((Some(code), message)) => if code@ == "23505"@ {
                e == RepoError::UniqueViolation(message)
            } else {
                e == RepoError::Other(display)
            },
            _ => e == RepoError::Other(display),
        },
{
    match database {
        Some((Some(code), message)) => {
            if str_eq(code.as_str(), "23505") {
                RepoError::UniqueViolation(message)
            } else {
                RepoError::Other(display)
            }
        },
        _ => RepoError::Other(display),
    }
}

} // verus!
