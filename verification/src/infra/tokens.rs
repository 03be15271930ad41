//! CSPRNG-backed session ids and API tokens; tokens are stored only as the
//! hex of their SHA-256 digest.

use crate::ids::SessionId;
use crate::ports::{ApiToken, TokenGenerator};
use crate::error::DomainError;
use crate::text::{concat, hex_digit, lemma_starts_with_concat, owned, push_char, starts_with};
use base64::Engine;
use sha2::Digest;
use vstd::prelude::*;
use vstd::utf8::encode_utf8;

verus! {

/// Calls `getrandom::fill` on a buffer of `n` bytes from the operating
/// system's CSPRNG. The bytes are random: only their number is promised.
/// When the operating system has no random source, the text of
/// `getrandom`'s error is returned instead of low-entropy bytes.
#[verifier::external_body]
fn os_random_bytes(n: usize) -> (r: Result<Vec<u8>, String>)
    ensures
        r matches Ok(b) ==> b@.len() == n,
{
    let mut buf = vec![0u8; n];
    match getrandom::fill(&mut buf) {
        Ok(()) => Ok(buf),
        Err(e) => Err(e.to_string()),
    }
}

/// The error for a missing random source.
pub open spec fn rng_failed<T>(r: Result<T, DomainError>) -> bool {
    r matches Err(DomainError::Repo(m)) && starts_with(m@, "rng failed: "@)
}

/// The text that `base64`'s URL-safe, unpadded engine encodes the bytes as.
pub uninterp spec fn base64_url(data: Seq<u8>) -> Seq<char>;

/// A character of the URL-safe base64 alphabet: `A-Z`, `a-z`, `0-9`, `-`, `_`.
pub open spec fn url_safe_char(c: char) -> bool {
    ('A' <= c && c <= 'Z') || ('a' <= c && c <= 'z') || ('0' <= c && c <= '9') || c == '-' || c == '_'
}

/// Calls `base64::engine::general_purpose::URL_SAFE_NO_PAD.encode`; the text
/// is named by [`base64_url`]. Without padding, every 3 bytes become 4
/// characters of the URL-safe alphabet and a last group of 1 or 2 bytes
/// becomes 2 or 3 characters.
#[verifier::external_body]
fn encode_base64_url(data: &[u8]) -> (s: String)
    ensures
        s@ == base64_url(data@),
        s@.len() == (4 * data@.len() + 2) / 3,
        forall|i: int| 0 <= i < s@.len() ==> url_safe_char(#[trigger] s@[i]),
{
    base64::engine::general_purpose::URL_SAFE_NO_PAD.encode(data)
}

/// The SHA-256 digest of the bytes.
pub uninterp spec fn sha256(data: Seq<u8>) -> Seq<u8>;

/// Calls `sha2::Sha256::digest`; the digest is named by [`sha256`] and is 32
/// bytes long.
#[verifier::external_body]
fn sha256_digest(data: &[u8]) -> (d: Vec<u8>)
    ensures
        d@ == sha256(data@),
        d@.len() == 32,
{
    sha2::Sha256::digest(data).to_vec()
}

/// Two lower-case hex digits per byte.
pub open spec fn hex_of(bytes: Seq<u8>) -> Seq<char>
    decreases bytes.len(),
{
    if bytes.len() == 0 {
        Seq::empty()
    } else {
        hex_of(bytes.drop_last()) + seq![hex_digit(bytes.last() as int / 16), hex_digit(bytes.last() as int % 16)]
    }
}

fn hex_char(v: u8) -> (c: char)
    requires
        v < 16,
    ensures
        c == hex_digit(v as int),
{
    if v < 10 {
        (48u8 + v) as char
    } else {
        (87u8 + v) as char
    }
}

/// Lower-case hex of the bytes, two digits each.
pub fn hex(bytes: &[u8]) -> (s: String)
    ensures
        s@ == hex_of(bytes@),
{
    let mut s = String::new();
    let n = bytes.len();
    let mut i: usize = 0;
    while i < n
        invariant
            n == bytes@.len(),
            0 <= i <= n,
            s@ == hex_of(bytes@.subrange(0, i as int)),
        decreases n - i,
    {
        let b = bytes[i];
        push_char(&mut s, hex_char(b / 16));
        push_char(&mut s, hex_char(b % 16));
        assert(bytes@.subrange(0, i + 1).drop_last() == bytes@.subrange(0, i as int));
        i = i + 1;
    }
    assert(bytes@.subrange(0, n as int) == bytes@);
    s
}

/// The stored form of a token: the hex of the SHA-256 of its UTF-8 bytes.
pub open spec fn token_hash_of(full: Seq<char>) -> Seq<char> {
    hex_of(sha256(encode_utf8(full)))
}

/// Two hex digits per byte.
pub proof fn lemma_hex_len(bytes: Seq<u8>)
    ensures
        hex_of(bytes).len() == 2 * bytes.len(),
    decreases bytes.len(),
{
    if bytes.len() > 0 {
        lemma_hex_len(bytes.drop_last());
    }
}

/// The stored form of a token: the hex of the SHA-256 of its UTF-8 bytes,
/// 64 characters long.
pub fn api_token_hash(full: &str) -> (h: String)
    ensures
        h@ == token_hash_of(full@),
        h@.len() == 64,
{
    let digest = sha256_digest(full.as_bytes());
    proof {
        lemma_hex_len(digest@);
    }
    hex(digest.as_slice())
}

/// The first `n` characters (all of them when there are fewer).
pub open spec fn first_chars(s: Seq<char>, n: int) -> Seq<char> {
    if s.len() <= n {
        s
    } else {
        s.take(n)
    }
}

/// The generator of session ids and API tokens from the operating system's
/// CSPRNG.
#[derive(Debug, Clone, Copy)]
pub struct RandTokenGenerator;

impl RandTokenGenerator {
    /// The URL-safe base64 text of `n` fresh random bytes.
    fn random_text(n: usize) -> (r: Result<String, DomainError>)
        ensures
            r matches Ok(s) ==> {
                &&& exists|b: Seq<u8>| b.len() == n && s@ == base64_url(b)
                &&& s@.len() == (4 * n + 2) / 3
                &&& forall|i: int| 0 <= i < s@.len() ==> url_safe_char(#[trigger] s@[i])
            },
            r is Err ==> rng_failed(r),
    {
        let bytes = match os_random_bytes(n) {
            Ok(b) => b,
            Err(e) => {
                proof {
                    lemma_starts_with_concat("rng failed: "@, e@);
                }
                return Err(DomainError::Repo(concat("rng failed: ", e.as_str())));
            },
        };
        let s = encode_base64_url(bytes.as_slice());
        assert(bytes@.len() == n && s@ == base64_url(bytes@));
        Ok(s)
    }
}

impl TokenGenerator for RandTokenGenerator {
    /// 32 random bytes, about 256 bits of entropy, as URL-safe base64.
    fn new_session_id(&self) -> (r: Result<SessionId, DomainError>)
        ensures
            r matches Ok(id) ==> {
                &&& exists|b: Seq<u8>| b.len() == 32 && id.0@ == base64_url(b)
                &&& id.0@.len() == 43
                &&& forall|i: int| 0 <= i < id.0@.len() ==> url_safe_char(#[trigger] id.0@[i])
            },
            r is Err ==> rng_failed(r),
    {
        match Self::random_text(32) {
            Ok(s) => Ok(SessionId(s)),
            Err(e) => Err(e),
        }
    }

    /// `ms_live_` followed by 24 random bytes as URL-safe base64; the prefix
    /// shown in the UI is the first 12 characters of the full token.
    fn new_api_token(&self) -> (r: Result<ApiToken, DomainError>)
        ensures
            r matches Ok(t) ==> {
                &&& exists|b: Seq<u8>| b.len() == 24 && t.full@ == "ms_live_"@ + base64_url(b)
                &&& t.full@.len() == 40
                &&& t.prefix@ == first_chars(t.full@, 12)
            },
            r is Err ==> rng_failed(r),
    {
        let secret = match Self::random_text(24) {
            Ok(s) => s,
            Err(e) => return Err(e),
        };
        proof {
            reveal_strlit("ms_live_");
        }
        let mut full = owned("ms_live_");
        full.append(secret.as_str());
        let f = full.as_str();
        let len = f.unicode_len();
        let k: usize = if len < 12 {
            len
        } else {
            12
        };
        let mut prefix = String::new();
        let mut i: usize = 0;
        while i < k
            invariant
                len == f@.len(),
                k <= len,
                k == (if len < 12 { len } else { 12 }),
                0 <= i <= k,
                prefix@ == f@.take(i as int),
            decreases k - i,
        {
            push_char(&mut prefix, f.get_char(i));
            assert(f@.take(i + 1) == f@.take(i as int).push(f@[i as int]));
            i = i + 1;
        }
        assert(f@.take(len as int) == f@);
        Ok(ApiToken { full, prefix })
    }

    /// 32 random bytes as URL-safe base64, like a session id.
    fn new_password_reset_token(&self) -> (r: Result<String, DomainError>)
        ensures
            r matches Ok(t) ==> (exists|b: Seq<u8>| b.len() == 32 && t@ == base64_url(b)) && t@.len() == 43,
            r is Err ==> rng_failed(r),
    {
        Self::random_text(32)
    }

    /// The hex of the SHA-256 of the token's UTF-8 bytes.
    fn hash_api_token(&self, full: &str) -> (h: String)
        ensures
            h@ == token_hash_of(full@),
    {
        api_token_hash(full)
    }
}

} // verus!
