//! The check in front of the operations that change a store: a presented key
//! is held against the configured secret without the time taken telling
//! where, or whether, the two differ.

use crate::unstr::text_bytes;
use sha2::Digest;
use vstd::prelude::*;
use vstd::string::*;
use vstd::utf8::*;

verus! {

/// The SHA-384 digest of `data`: forty-eight bytes.
pub uninterp spec fn sha384_digest(data: Seq<u8>) -> Seq<u8>;

/// Calls `sha2::Sha384::digest`, which hashes the bytes it is given and
/// returns the digest. Trusted: the result is the SHA-384 digest of
/// exactly `data`, so equal inputs give equal results.
#[verifier::external_body]
fn sha384(data: &[u8]) -> (digest: [u8; 48])
    ensures
        digest@ == sha384_digest(data@),
{
    sha2::Sha384::digest(data).into()
}

/// Calls `std::hint::black_box`, which hands its argument back and asks the
/// compiler not to reason about where it came from. Trusted: the result is
/// the argument.
#[verifier::external_body]
fn shielded(verdict: bool) -> (kept: bool)
    ensures
        kept == verdict,
{
    std::hint::black_box(verdict)
}

/// Whether two texts have the same SHA-384 digest, as equal texts do.
pub open spec fn same_digest(a: Seq<char>, b: Seq<char>) -> bool {
    sha384_digest(text_bytes(a)) == sha384_digest(text_bytes(b))
}

/// Whether a request may change the store: always where no secret is
/// configured; with a secret, only where a key is presented and its digest
/// is that of the secret.
pub open spec fn accepts(expected: Option<Seq<char>>, presented: Option<Seq<char>>) -> bool {
    match expected {
        None => true,
        Some(secret) => match presented {
            None => false,
            Some(key) => same_digest(secret, key),
        },
    }
}

/// The text of an optional secret.
pub open spec fn secret_text(expected: Option<String>) -> Option<Seq<char>> {
    match expected {
        None => None,
        Some(secret) => Some(secret@),
    }
}

/// The text of an optional key.
pub open spec fn key_text(header: Option<ApiKey>) -> Option<Seq<char>> {
    match header {
        None => None,
        Some(key) => Some(key@),
    }
}

/// The scheme under which a key is presented.
pub const SCHEME: &'static str = "ApiKey";

/// Where the key starts in a presented value: after the scheme and one
/// separating byte.
pub const KEY_OFFSET: usize = 7;

/// Whether a presented value, given by its bytes, has a key at `KEY_OFFSET`.
pub open spec fn holds_key(bytes: Seq<u8>) -> bool {
    KEY_OFFSET <= bytes.len() && is_char_boundary(bytes, KEY_OFFSET as int)
}

/// A key as a caller presents it.
pub struct ApiKey(String);

impl View for ApiKey {
    type V = Seq<char>;

    closed spec fn view(&self) -> Seq<char> {
        self.0@
    }
}

impl ApiKey {
    /// The key `key`.
    pub fn new(key: String) -> (r: ApiKey)
        ensures
            r@ == key@,
    {
        ApiKey(key)
    }

    /// The key as text.
    pub fn as_str(&self) -> (text: &str)
        ensures
            text@ == self@,
    {
        self.0.as_str()
    }

    /// Takes the key out of a presented value: what follows the first
    /// `KEY_OFFSET` bytes, if the value is that long and what follows starts
    /// a character. The scheme itself is not looked at.
    pub fn decode(value: &str) -> (r: Option<ApiKey>)
        ensures
            match r {
                Some(key) => holds_key(text_bytes(value@)) && text_bytes(key@) == text_bytes(
                    value@,
                ).skip(KEY_OFFSET as int),
                None => !holds_key(text_bytes(value@)),
            },
            is_ascii_chars(value@) ==> (r is Some <==> value@.len() >= KEY_OFFSET),
            is_ascii_chars(value@) && r is Some ==> r->0@ == value@.skip(KEY_OFFSET as int),
    {
        let bytes = value.as_bytes();
        proof {
            lemma_ascii_key(value@);
        }
        if bytes.len() < KEY_OFFSET {
            return None;
        }
        if !value.is_char_boundary(KEY_OFFSET) {
            return None;
        }
        let (_, key) = value.split_at(KEY_OFFSET);
        let key = ApiKey(key.to_owned());
        proof {
            assert(text_bytes(key@) =~= text_bytes(value@).skip(KEY_OFFSET as int));
            if is_ascii_chars(value@) {
                encode_utf8_decode_utf8(key@);
                encode_utf8_decode_utf8(value@.skip(KEY_OFFSET as int));
            }
        }
        Some(key)
    }
}

/// In an ASCII value of at least `KEY_OFFSET` characters the key starts a
/// character, and its bytes are those of the characters after the offset.
proof fn lemma_ascii_key(value: Seq<char>)
    ensures
        is_ascii_chars(value) ==> text_bytes(value).len() == value.len(),
        is_ascii_chars(value) && value.len() >= KEY_OFFSET ==> holds_key(text_bytes(value))
            && text_bytes(value.skip(KEY_OFFSET as int)) == text_bytes(value).skip(
            KEY_OFFSET as int,
        ),
{
    if is_ascii_chars(value) {
        let bytes = text_bytes(value);
        is_ascii_chars_encode_utf8(value);
        if value.len() >= KEY_OFFSET {
            let rest = value.skip(KEY_OFFSET as int);
            encode_utf8_valid_utf8(value);
            if value.len() == KEY_OFFSET {
                is_char_boundary_start_end_of_seq(bytes);
            } else {
                is_char_boundary_iff_not_is_continuation_byte(bytes, KEY_OFFSET as int);
                let b = bytes[KEY_OFFSET as int];
                let c = value[KEY_OFFSET as int];
                assert(b == c as u8);
                assert(b < 0x80);
                assert(!is_continuation_byte(b)) by (bit_vector)
                    requires
                        b < 0x80,
                ;
            }
            assert(is_ascii_chars(rest));
            is_ascii_chars_encode_utf8(rest);
            assert(text_bytes(rest) =~= bytes.skip(KEY_OFFSET as int));
        }
    }
}

/// Whether two digests are the same, found in a time that does not depend
/// on where they differ: every position is read, and the differences are
/// gathered into one byte that is looked at once, at the end.
pub fn digests_match(h0: &[u8; 48], h1: &[u8; 48]) -> (same: bool)
    ensures
        same == (h0@ == h1@),
{
    let mut gathered: u8 = 0;
    let mut i: usize = 0;
    proof {
        assert(h0@.take(0) =~= h1@.take(0));
    }
    while i < 48
        invariant
            i <= 48,
            gathered == 0 <==> h0@.take(i as int) == h1@.take(i as int),
        decreases 48 - i,
    {
        let x = h0[i];
        let y = h1[i];
        proof {
            assert(((gathered | (x ^ y)) == 0) <==> (gathered == 0 && x == y)) by (bit_vector);
            assert(h0@.take(i + 1) =~= h0@.take(i as int).push(x));
            assert(h1@.take(i + 1) =~= h1@.take(i as int).push(y));
            if h0@.take(i + 1) == h1@.take(i + 1) {
                assert(h0@.take(i as int) =~= h0@.take(i + 1).drop_last());
                assert(h1@.take(i as int) =~= h1@.take(i + 1).drop_last());
                assert(x == h0@.take(i + 1).last());
                assert(y == h1@.take(i + 1).last());
            }
        }
        gathered = gathered | (x ^ y);
        i += 1;
    }
    proof {
        assert(h0@.take(48) =~= h0@);
        assert(h1@.take(48) =~= h1@);
    }
    shielded(gathered == 0)
}

/// Whether two texts have the same SHA-384 digest. Equal texts always
/// have; the digests have one length whatever the lengths of the texts, so
/// the comparison tells nothing of the length of either.
pub fn const_comp(i0: &str, i1: &str) -> (same: bool)
    ensures
        same == same_digest(i0@, i1@),
        i0@ == i1@ ==> same,
{
    let h0 = sha384(i0.as_bytes());
    let h1 = sha384(i1.as_bytes());
    digests_match(&h0, &h1)
}

/// Whether a request that presents `header` may change the store, given the
/// configured secret `expected`.
pub fn accept_auth(expected: &Option<String>, header: Option<ApiKey>) -> (accepted: bool)
    ensures
        accepted == accepts(secret_text(*expected), key_text(header)),
        *expected is None ==> accepted,
        *expected is Some && header is None ==> !accepted,
        *expected is Some && header is Some && expected->0@ == header->0@ ==> accepted,
{
    let expected: &String = match expected {
        Some(expected) => expected,
        None => { return true; },
    };
    match header {
        Some(presented) => const_comp(expected.as_str(), presented.as_str()),
        None => false,
    }
}

} // verus!
