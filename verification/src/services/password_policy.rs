//! Password-policy validation: a candidate password against the
//! organization's policy, reporting every rule it fails.

use crate::entities::organization::PasswordPolicy;
use crate::error::PolicyViolation;
use crate::text::{ascii_digit, is_alphanumeric, is_ascii_digit, is_whitespace, unicode_alphanumeric, unicode_whitespace};
use vstd::prelude::*;

verus! {

/// A symbol is any character that is neither alphanumeric nor whitespace.
pub open spec fn symbol_char(c: char) -> bool {
    !unicode_alphanumeric(c) && !unicode_whitespace(c)
}

/// The password holds an ASCII digit.
pub open spec fn has_digit(pw: Seq<char>) -> bool {
    exists|i: int| 0 <= i < pw.len() && ascii_digit(#[trigger] pw[i])
}

/// The password holds a symbol.
pub open spec fn has_symbol(pw: Seq<char>) -> bool {
    exists|i: int| 0 <= i < pw.len() && symbol_char(#[trigger] pw[i])
}

/// Every rule the password fails, in rule order: too short (counted in
/// characters), missing number, missing symbol.
pub open spec fn violations_of(pw: Seq<char>, p: PasswordPolicy) -> Seq<PolicyViolation> {
    (if pw.len() < p.min_length {
        seq![PolicyViolation::TooShort { min: p.min_length, actual: pw.len() as usize }]
    } else {
        Seq::empty()
    }) + (if p.require_number && !has_digit(pw) {
        seq![PolicyViolation::MissingNumber]
    } else {
        Seq::empty()
    }) + (if p.require_symbol && !has_symbol(pw) {
        seq![PolicyViolation::MissingSymbol]
    } else {
        Seq::empty()
    })
}

/// The password satisfies every rule of the policy.
pub open spec fn satisfies(pw: Seq<char>, p: PasswordPolicy) -> bool {
    &&& pw.len() >= p.min_length
    &&& p.require_number ==> has_digit(pw)
    &&& p.require_symbol ==> has_symbol(pw)
}

/// A symbol is any non-alphanumeric, non-whitespace character.
fn is_symbol(c: char) -> (r: bool)
    ensures
        r == symbol_char(c),
{
    !is_alphanumeric(c) && !is_whitespace(c)
}

/// Validate `pw` against `policy`: `Ok(())` when it satisfies every rule,
/// otherwise the full list of violations.
pub fn validate_password(pw: &str, policy: &PasswordPolicy) -> (r: Result<(), Vec<PolicyViolation>>)
    ensures
        r is Ok <==> satisfies(pw@, *policy),
        r matches Err(v) ==> v@ == violations_of(pw@, *policy) && v@.len() > 0,
        r is Ok ==> violations_of(pw@, *policy).len() == 0,
{
    let len = pw.unicode_len();
    let mut digit = false;
    let mut symbol = false;
    let mut i: usize = 0;
    while i < len
        invariant
            len == pw@.len(),
            0 <= i <= len,
            digit == (exists|j: int| 0 <= j < i && ascii_digit(#[trigger] pw@[j])),
            symbol == (exists|j: int| 0 <= j < i && symbol_char(#[trigger] pw@[j])),
        decreases len - i,
    {
        let c = pw.get_char(i);
        if is_ascii_digit(c) {
            digit = true;
        }
        if is_symbol(c) {
            symbol = true;
        }
        i = i + 1;
    }
    let mut violations: Vec<PolicyViolation> = Vec::new();
    if len < policy.min_length as usize {
        violations.push(PolicyViolation::TooShort { min: policy.min_length, actual: len });
    }
    if policy.require_number && !digit {
        violations.push(PolicyViolation::MissingNumber);
    }
    if policy.require_symbol && !symbol {
        violations.push(PolicyViolation::MissingSymbol);
    }
    assert(violations@ == violations_of(pw@, *policy));
    if violations.len() == 0 {
        Ok(())
    } else {
        Err(violations)
    }
}

/// Letters and digits are never symbols (nor is whitespace): a password made
/// only of characters that `char::is_alphanumeric` or `char::is_whitespace`
/// accepts has no symbol, so a policy that requires one reports
/// `MissingSymbol` as its last violation and the password is refused.
pub proof fn letters_and_digits_are_not_symbols(pw: Seq<char>, p: PasswordPolicy)
    requires
        forall|i: int| 0 <= i < pw.len() ==> unicode_alphanumeric(#[trigger] pw[i]) || unicode_whitespace(pw[i]),
        p.require_symbol,
    ensures
        !has_symbol(pw),
        !satisfies(pw, p),
        violations_of(pw, p).len() > 0,
        violations_of(pw, p).last() == PolicyViolation::MissingSymbol,
{
    assert(!has_symbol(pw)) by {
        if has_symbol(pw) {
            let i = choose|i: int| 0 <= i < pw.len() && symbol_char(#[trigger] pw[i]);
            assert(unicode_alphanumeric(pw[i]) || unicode_whitespace(pw[i]));
        }
    }
}

/// Adding a character that is neither alphanumeric nor whitespace to a
/// password always satisfies the symbol rule.
pub proof fn any_other_character_is_a_symbol(pw: Seq<char>, c: char)
    requires
        !unicode_alphanumeric(c),
        !unicode_whitespace(c),
    ensures
        has_symbol(pw.push(c)),
{
    assert(symbol_char(pw.push(c)[pw.len() as int]));
}

} // verus!
