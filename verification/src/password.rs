//! Password hashing: a PBKDF2-derived key and its salt, stored as two
//! lowercase hex strings joined by a dot.

use vstd::prelude::*;
use vstd::string::StringExecFns;
use vstd::utf8::encode_utf8;

use crate::text::str_eq;

verus! {

/// PBKDF2 rounds used for every stored password.
pub const NUMBER_OF_ITERATIONS: u32 = 25000;

/// Length of the derived key, in bytes.
pub const KEYLEN: usize = 512;

/// Secrets longer than this cannot be hashed (the digest's input limit).
pub open spec fn max_password_chars() -> int {
    0x0800_0000_0000_0000
}

/// Stored passwords longer than this cannot be checked: their salt half
/// would exceed the digest's input limit.
pub open spec fn max_stored_chars() -> int {
    0x2000_0000_0000_0000
}

pub open spec fn hex_digit_chars() -> Seq<char> {
    seq!['0', '1', '2', '3', '4', '5', '6', '7', '8', '9', 'a', 'b', 'c', 'd', 'e', 'f']
}

pub open spec fn hex_char(n: int) -> char {
    hex_digit_chars()[n]
}

/// Lowercase hex encoding: two digits per byte, most significant nibble first.
pub open spec fn hex_chars_of(b: Seq<u8>) -> Seq<char>
    decreases b.len(),
{
    if b.len() == 0 {
        Seq::empty()
    } else {
        hex_chars_of(b.drop_last()) + seq![
            hex_char(b.last() as int / 16),
            hex_char(b.last() as int % 16),
        ]
    }
}

/// The key PBKDF2-HMAC-SHA256 derives; it depends on the arguments alone.
pub uninterp spec fn pbkdf2_sha256_key(
    iterations: u32,
    key_len: usize,
    salt: Seq<u8>,
    secret: Seq<u8>,
) -> Seq<u8>;

/// The stored form of a password hashed with `salt`.
pub open spec fn spec_stored_password(salt: Seq<u8>, password: Seq<char>) -> Seq<char> {
    hex_chars_of(
        pbkdf2_sha256_key(NUMBER_OF_ITERATIONS, KEYLEN, salt, encode_utf8(password)),
    ) + seq!['.'] + hex_chars_of(salt)
}

/// Whether `stored` is the stored form of `supplied` under some salt.
pub open spec fn password_matches(stored: Seq<char>, supplied: Seq<char>) -> bool {
    exists|salt: Seq<u8>| stored == #[trigger] spec_stored_password(salt, supplied)
}

/// Relies on data_encoding::HEXLOWER.encode: two lowercase hex digits per
/// byte, most significant nibble first. The bound keeps the output length,
/// on which the call would otherwise panic, within address space.
#[verifier::external_body]
fn hex_encode(b: &[u8]) -> (r: String)
    requires
        2 * b@.len() <= usize::MAX,
    ensures
        r@ == hex_chars_of(b@),
{
    data_encoding::HEXLOWER.encode(b)
}

/// Relies on data_encoding::HEXLOWER.decode: succeeds exactly on canonical
/// lowercase hex of even length, returning the bytes it encodes.
#[verifier::external_body]
fn hex_decode(s: &str) -> (r: Option<Vec<u8>>)
    ensures
        match r {
            Some(v) => hex_chars_of(v@) == s@,
            None => forall|v: Seq<u8>| hex_chars_of(v) != s@,
        },
{
    data_encoding::HEXLOWER.decode(s.as_bytes()).ok()
}

/// Relies on ring::pbkdf2::derive with PBKDF2_HMAC_SHA256: fills a buffer of
/// `key_len` bytes with the key derived from the arguments alone. The bounds
/// keep clear of the inputs on which the call panics (zero rounds, more
/// output than PBKDF2 yields, a secret beyond the digest's input limit).
#[verifier::external_body]
fn derive_key(iterations: u32, key_len: usize, salt: &[u8], secret: &[u8]) -> (r: Vec<u8>)
    requires
        1 <= iterations,
        key_len <= 0x1_0000_0000,
        salt@.len() < 0x1fff_ffff_ffff_ff00,
        secret@.len() < 0x2000_0000_0000_0000,
    ensures
        r@ == pbkdf2_sha256_key(iterations, key_len, salt@, secret@),
        r@.len() == key_len,
{
    let mut out = vec![0u8; key_len];
    ring::pbkdf2::derive(
        ring::pbkdf2::PBKDF2_HMAC_SHA256,
        core::num::NonZeroU32::new(iterations).unwrap(),
        salt,
        secret,
        &mut out,
    );
    out
}

/// Relies on rand::rngs::ThreadRng::fill_bytes: fills the salt with random
/// bytes; nothing is promised of their values.
#[verifier::external_body]
fn random_salt() -> (r: Vec<u8>)
    ensures
        r@.len() == 32,
{
    let mut salt = [0u8; 32];
    rand::RngCore::fill_bytes(&mut rand::thread_rng(), &mut salt);
    salt.to_vec()
}

/// A UTF-8 encoding takes at most four bytes per character.
pub proof fn lemma_encode_utf8_len(s: Seq<char>)
    ensures
        encode_utf8(s).len() <= 4 * s.len(),
    decreases s.len(),
{
    if s.len() > 0 {
        lemma_encode_utf8_len(s.drop_first());
    }
}

/// No hex digit is a dot.
pub proof fn lemma_hex_no_dot(b: Seq<u8>)
    ensures
        hex_chars_of(b).len() == 2 * b.len(),
        forall|i: int| 0 <= i < hex_chars_of(b).len() ==> #[trigger] hex_chars_of(b)[i] != '.',
    decreases b.len(),
{
    if b.len() > 0 {
        lemma_hex_no_dot(b.drop_last());
    }
}

/// Hex encoding is injective.
pub proof fn lemma_hex_injective(a: Seq<u8>, b: Seq<u8>)
    requires
        hex_chars_of(a) == hex_chars_of(b),
    ensures
        a == b,
    decreases a.len(),
{
    lemma_hex_no_dot(a);
    lemma_hex_no_dot(b);
    if a.len() == 0 {
        assert(a =~= b);
    } else {
        let ha = hex_chars_of(a);
        let hb = hex_chars_of(b);
        assert(hex_chars_of(a.drop_last()) =~= ha.subrange(0, ha.len() - 2));
        assert(hex_chars_of(b.drop_last()) =~= hb.subrange(0, hb.len() - 2));
        let la = a.last() as int;
        let lb = b.last() as int;
        assert(a.len() == b.len());
        assert(ha == hex_chars_of(a.drop_last()) + seq![hex_char(la / 16), hex_char(la % 16)]);
        assert(hb == hex_chars_of(b.drop_last()) + seq![hex_char(lb / 16), hex_char(lb % 16)]);
        assert(hex_chars_of(a.drop_last()) == ha.subrange(0, ha.len() - 2));
        lemma_hex_injective(a.drop_last(), b.drop_last());
        assert(ha[ha.len() - 2] == hex_char(la / 16));
        assert(ha[ha.len() - 1] == hex_char(la % 16));
        assert(hb[hb.len() - 2] == hex_char(lb / 16));
        assert(hb[hb.len() - 1] == hex_char(lb % 16));
        assert(hex_char(la / 16) == hex_char(lb / 16) && hex_char(la % 16) == hex_char(lb % 16));
        assert(la == lb) by {
            assert(forall|x: int, y: int|
                0 <= x < 16 && 0 <= y < 16 && x != y ==> #[trigger] hex_char(x)
                    != #[trigger] hex_char(y));
        }
        assert forall|i: int| 0 <= i < a.len() implies a[i] == b[i] by {
            if i < a.len() - 1 {
                assert(a[i] == a.drop_last()[i]);
                assert(b[i] == b.drop_last()[i]);
            } else {
                assert(a[i] == a.last() && b[i] == b.last());
            }
        }
        assert(a =~= b);
    }
}

/// Where the dot sits in a stored password, and what surrounds it: the hex
/// key before, the hex salt after, and no other dot anywhere.
pub proof fn lemma_stored_shape(salt: Seq<u8>, supplied: Seq<char>)
    ensures
        ({
            let stored = spec_stored_password(salt, supplied);
            let key = pbkdf2_sha256_key(NUMBER_OF_ITERATIONS, KEYLEN, salt, encode_utf8(supplied));
            let d = hex_chars_of(key).len() as int;
            &&& stored.len() == hex_chars_of(key).len() + 1 + hex_chars_of(salt).len()
            &&& 0 <= d < stored.len()
            &&& stored[d] == '.'
            &&& forall|j: int| 0 <= j < stored.len() && j != d ==> #[trigger] stored[j] != '.'
            &&& stored.subrange(0, d) == hex_chars_of(key)
            &&& stored.subrange(d + 1, stored.len() as int) == hex_chars_of(salt)
        }),
{
    let stored = spec_stored_password(salt, supplied);
    let key = pbkdf2_sha256_key(NUMBER_OF_ITERATIONS, KEYLEN, salt, encode_utf8(supplied));
    let d = hex_chars_of(key).len() as int;
    lemma_hex_no_dot(key);
    lemma_hex_no_dot(salt);
    assert(stored.subrange(0, d) =~= hex_chars_of(key));
    assert(stored.subrange(d + 1, stored.len() as int) =~= hex_chars_of(salt));
    assert forall|j: int| 0 <= j < stored.len() && j != d implies #[trigger] stored[j] != '.' by {
        if j < d {
            assert(stored[j] == hex_chars_of(key)[j]);
        } else {
            assert(stored[j] == hex_chars_of(salt)[j - d - 1]);
        }
    }
}

/// Password hashing and verification.
pub struct Password;

impl Password {
    /// Hashes `password` under a fresh random salt; the result is the derived
    /// key and the salt, hex-encoded and joined by a dot.
    pub fn generate_password(password: &str) -> (r: String)
        requires
            password@.len() < max_password_chars(),
        ensures
            exists|salt: Seq<u8>| salt.len() == 32 && r@ == #[trigger] spec_stored_password(
                salt,
                password@,
            ),
            password_matches(r@, password@),
    {
        proof {
            lemma_encode_utf8_len(password@);
        }
        let salt = random_salt();
        let hash = derive_key(
            NUMBER_OF_ITERATIONS,
            KEYLEN,
            salt.as_slice(),
            password.as_bytes(),
        );
        let mut out = hex_encode(hash.as_slice());
        out.append(".");
        let salt_hex = hex_encode(salt.as_slice());
        out.append(salt_hex.as_str());
        proof {
            reveal_strlit(".");
            assert(("."@) =~= seq!['.']);
            assert(out@ =~= spec_stored_password(salt@, password@));
        }
        out
    }

    /// Whether `stored_password` is the stored form of `supplied_password`:
    /// a hex key and a hex salt joined by one dot, the key being the one
    /// derived from that salt and the supplied password.
    #[verifier::loop_isolation(false)]
    pub fn compare(stored_password: &str, supplied_password: &str) -> (r: bool)
        requires
            stored_password@.len() < max_stored_chars(),
            supplied_password@.len() < max_password_chars(),
        ensures
            r == password_matches(stored_password@, supplied_password@),
    {
        let ghost stored = stored_password@;
        let ghost supplied = supplied_password@;
        proof {
            lemma_encode_utf8_len(supplied);
        }
        let n = stored_password.unicode_len();

        // Find the dot; more or fewer than one means no match.
        let mut i: usize = 0;
        let mut first: Option<usize> = None;
        let mut extra: bool = false;
        while i < n
            invariant
                0 <= i <= n,
                n == stored.len(),
                match first {
                    None => !extra && forall|j: int| 0 <= j < i ==> stored[j] != '.',
                    Some(d) => 0 <= d < i && stored[d as int] == '.' && (!extra ==> forall|j: int|
                        0 <= j < i && j != d ==> stored[j] != '.') && (extra ==> exists|j: int|
                        0 <= j < i && j != d && stored[j] == '.'),
                },
            decreases n - i,
        {
            let c = stored_password.get_char(i);
            if c == '.' {
                if first.is_none() {
                    first = Some(i);
                } else {
                    extra = true;
                }
            }
            i = i + 1;
        }
        let d = match first {
            Some(d) => d,
            None => {
                proof {
                    if password_matches(stored, supplied) {
                        let salt = choose|salt: Seq<u8>|
                            stored == #[trigger] spec_stored_password(salt, supplied);
                        lemma_stored_shape(salt, supplied);
                    }
                }
                return false;
            },
        };
        if extra {
            proof {
                if password_matches(stored, supplied) {
                    let salt = choose|salt: Seq<u8>|
                        stored == #[trigger] spec_stored_password(salt, supplied);
                    lemma_stored_shape(salt, supplied);
                }
            }
            return false;
        }

        // Exactly one dot: hex key before it, hex salt after it.
        let hash_str = stored_password.substring_char(0, d);
        let salt_str = stored_password.substring_char(d + 1, n);
        let salt = match hex_decode(salt_str) {
            Some(v) => {
                proof {
                    lemma_hex_no_dot(v@);
                    assert(salt_str@.len() == 2 * v@.len());
                }
                v
            },
            None => {
                proof {
                    if password_matches(stored, supplied) {
                        let s = choose|s: Seq<u8>|
                            stored == #[trigger] spec_stored_password(s, supplied);
                        lemma_stored_shape(s, supplied);
                        let key = pbkdf2_sha256_key(
                            NUMBER_OF_ITERATIONS,
                            KEYLEN,
                            s,
                            encode_utf8(supplied),
                        );
                        lemma_hex_no_dot(key);
                        assert(d == hex_chars_of(key).len());
                        assert(salt_str@ == hex_chars_of(s));
                    }
                }
                return false;
            },
        };
        let verify = derive_key(
            NUMBER_OF_ITERATIONS,
            KEYLEN,
            salt.as_slice(),
            supplied_password.as_bytes(),
        );
        let verify_hex = hex_encode(verify.as_slice());
        let eq = str_eq(hash_str, verify_hex.as_str());
        proof {
            let key_here = pbkdf2_sha256_key(
                NUMBER_OF_ITERATIONS,
                KEYLEN,
                salt@,
                encode_utf8(supplied),
            );
            if eq {
                assert(stored =~= hash_str@ + seq!['.'] + salt_str@);
                assert(stored == spec_stored_password(salt@, supplied));
                assert(password_matches(stored, supplied));
            } else {
                if password_matches(stored, supplied) {
                    let s = choose|s: Seq<u8>|
                        stored == #[trigger] spec_stored_password(s, supplied);
                    lemma_stored_shape(s, supplied);
                    let key = pbkdf2_sha256_key(
                        NUMBER_OF_ITERATIONS,
                        KEYLEN,
                        s,
                        encode_utf8(supplied),
                    );
                    lemma_hex_no_dot(key);
                    assert(d == hex_chars_of(key).len());
                    assert(salt_str@ == hex_chars_of(s));
                    lemma_hex_injective(s, salt@);
                    assert(hash_str@ == hex_chars_of(key_here));
                    assert(false);
                }
            }
        }
        eq
    }
}

} // verus!
