//! Character and string primitives from `std` that the rules build on.
//! Each std call stands behind one small trusted item; everything built from
//! them elsewhere in the crate is verified.

use vstd::prelude::*;

verus! {

/// The Unicode `White_Space` property, which `char::is_whitespace` tests:
/// tab through carriage return, space, next line, no-break space, ogham
/// space mark, the spaces from en quad to hair space, line and paragraph
/// separator, narrow no-break space, medium mathematical space and
/// ideographic space (the code points listed in the Unicode Character
/// Database, `PropList.txt`).
pub open spec fn unicode_whitespace(c: char) -> bool {
    let n = c as u32;
    ||| 0x9 <= n <= 0xD
    ||| n == 0x20 || n == 0x85 || n == 0xA0 || n == 0x1680
    ||| 0x2000 <= n <= 0x200A
    ||| n == 0x2028 || n == 0x2029 || n == 0x202F || n == 0x205F || n == 0x3000
}

/// What `char::is_alphanumeric` answers for a character (Unicode
/// `Alphabetic` or `Numeric`).
pub uninterp spec fn unicode_alphanumeric(c: char) -> bool;

/// The characters that `char::to_uppercase` yields for a character.
pub uninterp spec fn unicode_uppercase(c: char) -> Seq<char>;

/// What `str::to_lowercase` returns for a string.
pub uninterp spec fn unicode_lowercase(s: Seq<char>) -> Seq<char>;

/// Calls `char::is_whitespace`, which answers whether the character has the
/// `White_Space` property ([`unicode_whitespace`]).
#[verifier::external_body]
pub(crate) fn is_whitespace(c: char) -> (b: bool)
    ensures
        b == unicode_whitespace(c),
{
    c.is_whitespace()
}

/// Calls `char::is_alphanumeric`; the result is named by [`unicode_alphanumeric`].
#[verifier::external_body]
pub(crate) fn is_alphanumeric(c: char) -> (b: bool)
    ensures
        b == unicode_alphanumeric(c),
{
    c.is_alphanumeric()
}

/// Calls `char::to_uppercase` and collects the characters it yields; they are
/// named by [`unicode_uppercase`].
#[verifier::external_body]
pub(crate) fn to_uppercase(c: char) -> (s: String)
    ensures
        s@ == unicode_uppercase(c),
{
    c.to_uppercase().collect()
}

/// Calls `str::to_lowercase`; the result is named by [`unicode_lowercase`].
#[verifier::external_body]
pub(crate) fn to_lowercase(s: &str) -> (r: String)
    ensures
        r@ == unicode_lowercase(s@),
{
    s.to_lowercase()
}

/// Calls `String::push`: the string grows by exactly that character.
#[verifier::external_body]
pub(crate) fn push_char(s: &mut String, c: char)
    ensures
        final(s)@ == old(s)@.push(c),
{
    s.push(c)
}

/// Calls `str`'s `==`: two string slices are equal exactly when they hold the
/// same characters.
#[verifier::external_body]
pub(crate) fn str_eq(a: &str, b: &str) -> (r: bool)
    ensures
        r == (a@ == b@),
{
    a == b
}

/// A `String` holding the characters of a string slice.
pub fn owned(s: &str) -> (r: String)
    ensures
        r@ == s@,
{
    String::from_str(s)
}

/// The concatenation of two string slices.
pub fn concat(a: &str, b: &str) -> (r: String)
    ensures
        r@ == a@ + b@,
{
    String::from_str(a).concat(b)
}

/// Whether `s` begins with `p`.
pub open spec fn starts_with(s: Seq<char>, p: Seq<char>) -> bool {
    p.len() <= s.len() && s.subrange(0, p.len() as int) == p
}

/// A concatenation begins with its first part.
pub proof fn lemma_starts_with_concat(p: Seq<char>, e: Seq<char>)
    ensures
        starts_with(p + e, p),
{
    assert((p + e).subrange(0, p.len() as int) =~= p);
}

/// The character of a decimal digit.
pub open spec fn digit_char(d: u8) -> char {
    ((48 + d) as u8) as char
}

/// The decimal digits of a natural number, most significant first, with no
/// leading zeros (`"0"` for zero).
pub open spec fn nat_text(n: nat) -> Seq<char>
    decreases n,
{
    if n < 10 {
        seq![digit_char(n as u8)]
    } else {
        nat_text(n / 10).push(digit_char((n % 10) as u8))
    }
}

/// The text that an integer's `Display` writes: a `-` for negative numbers,
/// then the decimal digits of its magnitude.
pub open spec fn decimal_text(n: int) -> Seq<char> {
    if n < 0 {
        seq!['-'] + nat_text((-n) as nat)
    } else {
        nat_text(n as nat)
    }
}

/// Append the decimal digits of `n`.
fn push_digits(s: &mut String, n: u128)
    ensures
        final(s)@ == old(s)@ + nat_text(n as nat),
    decreases n,
{
    if n >= 10 {
        push_digits(s, n / 10);
    }
    let d: u8 = (n % 10) as u8;
    push_char(s, (48u8 + d) as char);
    assert(n < 10 ==> n % 10 == n);
}

/// The decimal text of an integer.
pub fn int_text(n: i128) -> (s: String)
    ensures
        s@ == decimal_text(n as int),
{
    let mut s = String::new();
    if n < 0 {
        push_char(&mut s, '-');
        let m: u128 = if n == i128::MIN {
            170141183460469231731687303715884105728u128
        } else {
            (-n) as u128
        };
        push_digits(&mut s, m);
    } else {
        push_digits(&mut s, n as u128);
    }
    s
}

/// The lower-case hexadecimal digit of a value below 16.
pub open spec fn hex_digit(v: int) -> char {
    if v < 10 {
        ('0' as int + v) as char
    } else {
        ('a' as int + v - 10) as char
    }
}

/// `'0'..='9'`, as `char::is_ascii_digit` answers.
pub open spec fn ascii_digit(c: char) -> bool {
    '0' <= c && c <= '9'
}

/// Whether a character is an ASCII decimal digit.
pub fn is_ascii_digit(c: char) -> (b: bool)
    ensures
        b == ascii_digit(c),
{
    '0' <= c && c <= '9'
}

/// `char::to_ascii_lowercase`: `A..=Z` map to `a..=z`, every other character
/// is kept.
pub open spec fn ascii_lower(c: char) -> char {
    if 'A' <= c && c <= 'Z' {
        ((c as u32) + 32) as char
    } else {
        c
    }
}

/// Lower-cases one character in the ASCII range.
pub fn to_ascii_lowercase(c: char) -> (r: char)
    ensures
        r == ascii_lower(c),
{
    if 'A' <= c && c <= 'Z' {
        let b: u8 = c as u8;
        ((b + 32) as char)
    } else {
        c
    }
}

/// The index of the first non-whitespace character at or after `i`, or the
/// length when there is none.
pub open spec fn lead_ws(s: Seq<char>, i: int) -> int
    decreases s.len() - i,
{
    if i >= s.len() {
        s.len() as int
    } else if unicode_whitespace(s[i]) {
        lead_ws(s, i + 1)
    } else {
        i
    }
}

/// One past the last non-whitespace character before `j` and at or after
/// `lo`, or `lo` when there is none.
pub open spec fn trail_ws(s: Seq<char>, j: int, lo: int) -> int
    decreases j - lo,
{
    if j <= lo {
        lo
    } else if unicode_whitespace(s[j - 1]) {
        trail_ws(s, j - 1, lo)
    } else {
        j
    }
}

/// `str::trim`: the string without leading and trailing whitespace.
pub open spec fn trim_ws(s: Seq<char>) -> Seq<char> {
    let a = lead_ws(s, 0);
    s.subrange(a, trail_ws(s, s.len() as int, a))
}

/// The characters of `raw` without leading and trailing whitespace.
pub fn trimmed_chars(raw: &str) -> (t: Vec<char>)
    ensures
        t@ == trim_ws(raw@),
{
    let n = raw.unicode_len();
    let mut a: usize = 0;
    while a < n
        invariant
            n == raw@.len(),
            0 <= a <= n,
            lead_ws(raw@, a as int) == lead_ws(raw@, 0),
        ensures
            lead_ws(raw@, 0) == a,
        decreases n - a,
    {
        if !is_whitespace(raw.get_char(a)) {
            break;
        }
        a = a + 1;
    }
    let mut b: usize = n;
    while b > a
        invariant
            n == raw@.len(),
            lead_ws(raw@, 0) == a,
            a <= b <= n,
            trail_ws(raw@, b as int, a as int) == trail_ws(raw@, n as int, a as int),
        ensures
            trail_ws(raw@, n as int, a as int) == b,
        decreases b - a,
    {
        if !is_whitespace(raw.get_char(b - 1)) {
            break;
        }
        b = b - 1;
    }
    let mut t: Vec<char> = Vec::new();
    let mut k: usize = a;
    while k < b
        invariant
            n == raw@.len(),
            a <= k <= b <= n,
            t@ == raw@.subrange(a as int, k as int),
        decreases b - k,
    {
        let c = raw.get_char(k);
        t.push(c);
        assert(raw@.subrange(a as int, k + 1) == raw@.subrange(a as int, k as int).push(c));
        k = k + 1;
    }
    t
}

/// `str::trim`: the string without leading and trailing whitespace.
pub fn trim(s: &str) -> (r: String)
    ensures
        r@ == trim_ws(s@),
{
    let t = trimmed_chars(s);
    let mut r = String::new();
    let n = t.len();
    let mut i: usize = 0;
    while i < n
        invariant
            n == t@.len(),
            0 <= i <= n,
            r@ == t@.subrange(0, i as int),
        decreases n - i,
    {
        push_char(&mut r, t[i]);
        assert(t@.subrange(0, i + 1) == t@.subrange(0, i as int).push(t@[i as int]));
        i = i + 1;
    }
    assert(t@.subrange(0, n as int) == t@);
    r
}

/// A copy of an optional string.
pub fn clone_opt(o: &Option<String>) -> (r: Option<String>)
    ensures
        r == *o,
{
    match o {
        Some(s) => Some(s.clone()),
        None => None,
    }
}

} // verus!
