//! A validated email value object. Built only through [`Email::parse`], so an
//! `Email` is always trimmed, syntactically valid and lower-cased (ASCII).

use crate::error::DomainError;
use crate::text::{ascii_lower, concat, is_whitespace, lead_ws, push_char, to_ascii_lowercase, trail_ws, trim_ws, trimmed_chars, unicode_whitespace};
use vstd::prelude::*;

verus! {

/// The domain part of an email is acceptable: it has a dot with at least one
/// character before it and one after it (the `[^@\s]+\.[^@\s]+` of the
/// pattern `^[^@\s]+@[^@\s]+\.[^@\s]+$`).
pub open spec fn domain_ok(d: Seq<char>) -> bool {
    exists|k: int| 1 <= k < d.len() - 1 && d[k] == '.'
}

/// `something@something.tld`: no whitespace, exactly one `@` with a non-empty
/// local part before it, and an acceptable domain after it.
pub open spec fn is_valid_email(t: Seq<char>) -> bool {
    &&& forall|i: int| 0 <= i < t.len() ==> !unicode_whitespace(#[trigger] t[i])
    &&& exists|a: int|
        #![trigger t[a]]
        0 < a < t.len() && t[a] == '@' && (forall|k: int| 0 <= k < t.len() && k != a ==> t[k] != '@')
            && domain_ok(t.subrange(a + 1, t.len() as int))
}

/// Every character lower-cased by `char::to_ascii_lowercase`.
pub open spec fn ascii_lowercase(s: Seq<char>) -> Seq<char> {
    s.map_values(|c: char| ascii_lower(c))
}

/// The text an email is kept as: trimmed, then ASCII letters lower-cased.
pub open spec fn email_text(raw: Seq<char>) -> Seq<char> {
    ascii_lowercase(trim_ws(raw))
}

/// The text of a parsed email: valid and already in normal form.
pub open spec fn normalized_email(s: Seq<char>) -> bool {
    is_valid_email(s) && email_text(s) == s
}

/// The index of the first `@` at or after `i`, or the length.
pub open spec fn first_at(s: Seq<char>, i: int) -> int
    decreases s.len() - i,
{
    if i >= s.len() {
        s.len() as int
    } else if s[i] == '@' {
        i
    } else {
        first_at(s, i + 1)
    }
}

/// The text before the first `@` (all of it when there is none).
pub open spec fn local_part_of(s: Seq<char>) -> Seq<char> {
    s.subrange(0, first_at(s, 0))
}

/// Lower-casing an ASCII letter twice is lower-casing it once.
proof fn lemma_ascii_lower_twice(c: char)
    ensures
        ascii_lower(ascii_lower(c)) == ascii_lower(c),
{
    if 'A' <= c && c <= 'Z' {
        assert('a' <= ascii_lower(c) && ascii_lower(c) <= 'z');
    }
}

/// The text of a parsed email is its own normal form and is still valid:
/// parsing an email's text gives back the same email.
pub proof fn parsed_email_reparses(raw: Seq<char>)
    requires
        is_valid_email(email_text(raw)),
    ensures
        is_valid_email(email_text(email_text(raw))),
        email_text(email_text(raw)) == email_text(raw),
{
    let e = email_text(raw);
    let n = e.len() as int;
    let a = choose|a: int|
        #![trigger e[a]]
        0 < a < e.len() && e[a] == '@' && (forall|k: int| 0 <= k < e.len() && k != a ==> e[k] != '@')
            && domain_ok(e.subrange(a + 1, e.len() as int));
    assert(n > 0 && e[a] == '@');
    assert(!unicode_whitespace(e[0]));
    assert(lead_ws(e, 0) == 0);
    assert(!unicode_whitespace(e[n - 1]));
    assert(trail_ws(e, n, 0) == n);
    assert(trim_ws(e) =~= e);
    assert forall|i: int| 0 <= i < n implies ascii_lower(#[trigger] e[i]) == e[i] by {
        lemma_ascii_lower_twice(trim_ws(raw)[i]);
    }
    assert(ascii_lowercase(e) =~= e);
}

/// Whether the (already trimmed) characters form a valid email.
fn valid_email_chars(t: &Vec<char>) -> (ok: bool)
    ensures
        ok == is_valid_email(t@),
{
    let n = t.len();
    // No whitespace anywhere.
    let mut i: usize = 0;
    while i < n
        invariant
            n == t@.len(),
            0 <= i <= n,
            forall|j: int| 0 <= j < i ==> !unicode_whitespace(#[trigger] t@[j]),
        decreases n - i,
    {
        if is_whitespace(t[i]) {
            assert(!is_valid_email(t@));
            return false;
        }
        i = i + 1;
    }
    // The first `@`.
    let mut a: usize = 0;
    while a < n
        invariant
            n == t@.len(),
            0 <= a <= n,
            forall|j: int| 0 <= j < a ==> #[trigger] t@[j] != '@',
        ensures
            a < n ==> t@[a as int] == '@',
        decreases n - a,
    {
        if t[a] == '@' {
            break;
        }
        a = a + 1;
    }
    if a == n {
        assert(!is_valid_email(t@)) by {
            if is_valid_email(t@) {
                let w = choose|w: int|
                    #![trigger t@[w]]
                    0 < w < t@.len() && t@[w] == '@' && (forall|k: int|
                        0 <= k < t@.len() && k != w ==> t@[k] != '@') && domain_ok(
                        t@.subrange(w + 1, t@.len() as int),
                    );
                assert(t@[w] != '@');
            }
        }
        return false;
    }
    if a == 0 {
        assert(!is_valid_email(t@)) by {
            if is_valid_email(t@) {
                let w = choose|w: int|
                    #![trigger t@[w]]
                    0 < w < t@.len() && t@[w] == '@' && (forall|k: int|
                        0 <= k < t@.len() && k != w ==> t@[k] != '@') && domain_ok(
                        t@.subrange(w + 1, t@.len() as int),
                    );
                assert(t@[0] == '@');
            }
        }
        return false;
    }
    // No second `@`.
    let mut k: usize = a + 1;
    while k < n
        invariant
            n == t@.len(),
            0 < a < k <= n,
            t@[a as int] == '@',
            forall|j: int| 0 <= j < a ==> #[trigger] t@[j] != '@',
            forall|j: int| a < j < k ==> #[trigger] t@[j] != '@',
        decreases n - k,
    {
        if t[k] == '@' {
            assert(!is_valid_email(t@)) by {
                if is_valid_email(t@) {
                    let w = choose|w: int|
                        #![trigger t@[w]]
                        0 < w < t@.len() && t@[w] == '@' && (forall|m: int|
                            0 <= m < t@.len() && m != w ==> t@[m] != '@') && domain_ok(
                            t@.subrange(w + 1, t@.len() as int),
                        );
                    if w == a as int {
                        assert(t@[k as int] != '@');
                    } else {
                        assert(t@[a as int] != '@');
                    }
                }
            }
            return false;
        }
        k = k + 1;
    }
    assert(forall|j: int| 0 <= j < n && j != a ==> t@[j] != '@') by {
        assert forall|j: int| 0 <= j < n && j != a implies t@[j] != '@' by {
            if j < a {
                assert(t@[j] != '@');
            } else {
                assert(t@[j] != '@');
            }
        }
    }
    let ghost d = t@.subrange(a + 1, n as int);
    // The domain part.
    let mut ok_domain = false;
    let mut m: usize = a + 1;
    while m < n - 1
        invariant
            n == t@.len(),
            0 < a < n,
            a + 1 <= m <= n,
            d == t@.subrange(a + 1, n as int),
            ok_domain ==> exists|q: int| 1 <= q < d.len() - 1 && d[q] == '.',
            !ok_domain ==> forall|q: int| 1 <= q < m - a - 1 && q < d.len() - 1 ==> #[trigger] d[q] != '.',
        decreases n - m,
    {
        if m > a + 1 && t[m] == '.' {
            assert(d[m - a - 1] == '.');
            ok_domain = true;
        }
        m = m + 1;
    }
    assert(ok_domain == domain_ok(d));
    if !ok_domain {
        assert(!is_valid_email(t@)) by {
            if is_valid_email(t@) {
                let w = choose|w: int|
                    #![trigger t@[w]]
                    0 < w < t@.len() && t@[w] == '@' && (forall|q: int|
                        0 <= q < t@.len() && q != w ==> t@[q] != '@') && domain_ok(
                        t@.subrange(w + 1, t@.len() as int),
                    );
                if w != a as int {
                    assert(t@[a as int] != '@');
                }
            }
        }
        return false;
    }
    assert(t@[a as int] == '@');
    true
}

/// A validated, normalized email address.
#[derive(Debug, PartialEq, Eq, Hash)]
pub struct Email(String);

impl View for Email {
    type V = Seq<char>;

    closed spec fn view(&self) -> Seq<char> {
        self.0@
    }
}

impl Clone for Email {
    fn clone(&self) -> (r: Self)
        ensures
            r == *self,
    {
        Email(self.0.clone())
    }
}

impl Email {
    /// Parse and normalize an email: trim surrounding whitespace, require
    /// `something@something.tld` with no whitespace and exactly one `@`, and
    /// lower-case ASCII letters.
    pub fn parse(raw: &str) -> (r: Result<Self, DomainError>)
        ensures
            r is Ok <==> is_valid_email(email_text(raw@)),
            r matches Ok(e) ==> e@ == email_text(raw@) && normalized_email(e@),
            r matches Err(e) ==> (e matches DomainError::Invalid(m) && m@ == "invalid email: "@ + raw@),
    {
        let t = trimmed_chars(raw);
        let n = t.len();
        let mut low: Vec<char> = Vec::new();
        let mut i: usize = 0;
        while i < n
            invariant
                n == t@.len(),
                0 <= i <= n,
                low@ == ascii_lowercase(t@.subrange(0, i as int)),
            decreases n - i,
        {
            low.push(to_ascii_lowercase(t[i]));
            assert(ascii_lowercase(t@.subrange(0, i + 1)) == ascii_lowercase(t@.subrange(0, i as int)).push(
                ascii_lower(t@[i as int]),
            ));
            i = i + 1;
        }
        assert(t@.subrange(0, n as int) == t@);
        if valid_email_chars(&low) {
            let mut s = String::new();
            let mut k: usize = 0;
            while k < n
                invariant
                    n == low@.len(),
                    0 <= k <= n,
                    s@ == low@.subrange(0, k as int),
                decreases n - k,
            {
                push_char(&mut s, low[k]);
                assert(low@.subrange(0, k + 1) == low@.subrange(0, k as int).push(low@[k as int]));
                k = k + 1;
            }
            assert(low@.subrange(0, n as int) == low@);
            proof {
                parsed_email_reparses(raw@);
            }
            Ok(Email(s))
        } else {
            Err(DomainError::Invalid(concat("invalid email: ", raw)))
        }
    }

    pub fn as_str(&self) -> (s: &str)
        ensures
            s@ == self@,
    {
        self.0.as_str()
    }

    pub fn into_string(self) -> (s: String)
        ensures
            s@ == self@,
    {
        self.0
    }

    /// The text before the `@`, used to derive a display name.
    pub fn local_part(&self) -> (s: &str)
        ensures
            s@ == local_part_of(self@),
    {
        let full = self.0.as_str();
        let n = full.unicode_len();
        let mut i: usize = 0;
        while i < n
            invariant
                n == full@.len(),
                full@ == self@,
                0 <= i <= n,
                first_at(full@, i as int) == first_at(full@, 0),
            ensures
                first_at(full@, 0) == i,
            decreases n - i,
        {
            if full.get_char(i) == '@' {
                break;
            }
            i = i + 1;
        }
        full.substring_char(0, i)
    }
}

/// The characters that may stand in either part of an email: anything but
/// whitespace and `@`.
pub open spec fn plain_chars(s: Seq<char>) -> bool {
    forall|i: int| 0 <= i < s.len() ==> !unicode_whitespace(#[trigger] s[i]) && s[i] != '@'
}

/// What makes `local@domain` an email: a non-empty local part and a domain
/// with a dot that has a character on each side, neither part holding
/// whitespace or another `@`. No other character is ruled out: `+`, `'`,
/// `!` and the like are as good as letters.
pub proof fn email_is_local_at_dotted_domain(local: Seq<char>, domain: Seq<char>)
    ensures
        is_valid_email(local + seq!['@'] + domain) <==> (local.len() > 0 && plain_chars(local) && plain_chars(domain)
            && exists|k: int| 1 <= k < domain.len() - 1 && domain[k] == '.'),
{
    let t = local + seq!['@'] + domain;
    let a = local.len() as int;
    assert(t[a] == '@');
    assert forall|i: int| 0 <= i < local.len() implies t[i] == local[i] by {}
    assert forall|i: int| 0 <= i < domain.len() implies t[a + 1 + i] == domain[i] by {}
    assert(t.subrange(a + 1, t.len() as int) =~= domain);
    if is_valid_email(t) {
        let w = choose|w: int|
            #![trigger t[w]]
            0 < w < t.len() && t[w] == '@' && (forall|k: int| 0 <= k < t.len() && k != w ==> t[k] != '@')
                && domain_ok(t.subrange(w + 1, t.len() as int));
        assert(w == a);
        assert forall|i: int| 0 <= i < local.len() implies !unicode_whitespace(#[trigger] local[i]) && local[i]
            != '@' by {
            assert(t[i] == local[i]);
        }
        assert forall|i: int| 0 <= i < domain.len() implies !unicode_whitespace(#[trigger] domain[i]) && domain[i]
            != '@' by {
            assert(t[a + 1 + i] == domain[i]);
        }
    }
    if local.len() > 0 && plain_chars(local) && plain_chars(domain) && (exists|k: int|
        1 <= k < domain.len() - 1 && domain[k] == '.') {
        assert forall|i: int| 0 <= i < t.len() implies !unicode_whitespace(#[trigger] t[i]) by {
            if i < a {
                assert(t[i] == local[i]);
            } else if i > a {
                assert(t[i] == domain[i - a - 1]);
            }
        }
        assert forall|k: int| 0 <= k < t.len() && k != a implies t[k] != '@' by {
            if k < a {
                assert(t[k] == local[k]);
            } else {
                assert(t[k] == domain[k - a - 1]);
            }
        }
        assert(domain_ok(t.subrange(a + 1, t.len() as int)));
    }
}

/// Any character but whitespace and `@` may replace one in the local part of
/// a valid email, and the email stays valid.
pub proof fn local_part_takes_any_plain_character(t: Seq<char>, i: int, c: char)
    requires
        is_valid_email(t),
        0 <= i,
        exists|a: int| i < a < t.len() && t[a] == '@',
        c != '@',
        !unicode_whitespace(c),
    ensures
        is_valid_email(t.update(i, c)),
{
    let w = choose|w: int|
        #![trigger t[w]]
        0 < w < t.len() && t[w] == '@' && (forall|k: int| 0 <= k < t.len() && k != w ==> t[k] != '@')
            && domain_ok(t.subrange(w + 1, t.len() as int));
    let a = choose|a: int| i < a < t.len() && t[a] == '@';
    assert(a == w);
    let u = t.update(i, c);
    assert(u[w] == '@');
    assert(u.subrange(w + 1, u.len() as int) =~= t.subrange(w + 1, t.len() as int));
    assert forall|k: int| 0 <= k < u.len() && k != w implies u[k] != '@' by {}
    assert forall|k: int| 0 <= k < u.len() implies !unicode_whitespace(#[trigger] u[k]) by {}
}

} // verus!
