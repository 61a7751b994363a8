//! Password digests: SHA-512, written as lower-case hexadecimal.

use sha2::{Digest, Sha512};
use vstd::prelude::*;

verus! {

/// Number of bytes in a SHA-512 digest.
pub const DIGEST_BYTES: usize = 64;

/// Number of characters in a stored digest.
pub const DIGEST_HEX_LEN: usize = 128;

/// The SHA-512 digest of `data`.
pub uninterp spec fn sha512(data: Seq<u8>) -> Seq<u8>;

/// Calls `sha2::Sha512::digest`. The result is taken to be the SHA-512
/// digest of `data`, which is 64 bytes long for every input.
#[verifier::external_body]
fn sha512_bytes(data: &[u8]) -> (out: Vec<u8>)
    ensures
        out@ == sha512(data@),
        out@.len() == DIGEST_BYTES,
{
    Sha512::digest(data).to_vec()
}

/// The lower-case hexadecimal digit for a value below sixteen.
pub open spec fn hex_digit(n: u8) -> char {
    if n == 0 {
        '0'
    } else if n == 1 {
        '1'
    } else if n == 2 {
        '2'
    } else if n == 3 {
        '3'
    } else if n == 4 {
        '4'
    } else if n == 5 {
        '5'
    } else if n == 6 {
        '6'
    } else if n == 7 {
        '7'
    } else if n == 8 {
        '8'
    } else if n == 9 {
        '9'
    } else if n == 10 {
        'a'
    } else if n == 11 {
        'b'
    } else if n == 12 {
        'c'
    } else if n == 13 {
        'd'
    } else if n == 14 {
        'e'
    } else {
        'f'
    }
}

/// Whether `c` is one of `0`-`9`, `a`-`f`.
pub open spec fn is_hex_digit(c: char) -> bool {
    ('0' <= c && c <= '9') || ('a' <= c && c <= 'f')
}

/// Two lower-case hexadecimal digits per byte, high nibble first.
pub open spec fn hex_lower(bytes: Seq<u8>) -> Seq<char> {
    Seq::new(
        2 * bytes.len(),
        |i: int|
            if i % 2 == 0 {
                hex_digit(bytes[i / 2] >> 4)
            } else {
                hex_digit(bytes[i / 2] & 0xf)
            },
    )
}

/// The digest that is stored for a password: the SHA-512 of its UTF-8
/// bytes, in lower-case hexadecimal.
pub open spec fn password_digest(password: Seq<char>) -> Seq<char> {
    hex_lower(sha512(vstd::utf8::encode_utf8(password)))
}

/// Whether `s` has the shape of a stored digest.
pub open spec fn is_digest(s: Seq<char>) -> bool {
    &&& s.len() == DIGEST_HEX_LEN
    &&& forall|i: int| 0 <= i < s.len() ==> is_hex_digit(#[trigger] s[i])
}

fn hex_char(n: u8) -> (c: char)
    requires
        n < 16,
    ensures
        c == hex_digit(n),
        is_hex_digit(c),
{
    match n {
        0 => '0',
        1 => '1',
        2 => '2',
        3 => '3',
        4 => '4',
        5 => '5',
        6 => '6',
        7 => '7',
        8 => '8',
        9 => '9',
        10 => 'a',
        11 => 'b',
        12 => 'c',
        13 => 'd',
        14 => 'e',
        _ => 'f',
    }
}

/// Writes `bytes` as lower-case hexadecimal.
pub fn to_hex(bytes: &[u8]) -> (out: String)
    ensures
        out@ == hex_lower(bytes@),
        out@.len() == 2 * bytes@.len(),
        forall|i: int| 0 <= i < out@.len() ==> is_hex_digit(#[trigger] out@[i]),
{
    let mut out = String::new();
    let mut i: usize = 0;
    while i < bytes.len()
        invariant
            i <= bytes.len(),
            out@ == hex_lower(bytes@.take(i as int)),
            forall|k: int| 0 <= k < out@.len() ==> is_hex_digit(#[trigger] out@[k]),
        decreases bytes.len() - i,
    {
        let b = bytes[i];
        let hi = b >> 4;
        let lo = b & 0xf;
        assert(hi < 16 && lo < 16) by (bit_vector)
            requires
                hi == b >> 4,
                lo == b & 0xf,
        ;
        let ghost before = out@;
        out.push(hex_char(hi));
        out.push(hex_char(lo));
        proof {
            let prev = bytes@.take(i as int);
            let next = bytes@.take(i + 1);
            assert(next.len() == i + 1);
            assert(forall|k: int| 0 <= k < i ==> next[k] == prev[k]);
            assert(next[i as int] == b);
            assert(out@ =~= hex_lower(next));
        }
        i += 1;
    }
    assert(bytes@.take(bytes@.len() as int) =~= bytes@);
    out
}

/// Hashes a password for storage. The digest is a function of the password
/// alone and always has the shape of a digest, so it is not the password
/// unless the password itself looks like one.
pub fn hash_password(password: &str) -> (digest: String)
    ensures
        digest@ == password_digest(password@),
        is_digest(digest@),
        !is_digest(password@) ==> digest@ != password@,
{
    let bytes = sha512_bytes(password.as_bytes());
    to_hex(bytes.as_slice())
}

/// Hexadecimal text has two digits per byte and nothing but digits.
pub proof fn lemma_hex_shape(bytes: Seq<u8>)
    ensures
        hex_lower(bytes).len() == 2 * bytes.len(),
        forall|i: int| 0 <= i < hex_lower(bytes).len() ==> is_hex_digit(#[trigger] hex_lower(bytes)[i]),
        bytes.len() == DIGEST_BYTES ==> is_digest(hex_lower(bytes)),
{
}

/// A byte is known from its two hexadecimal digits.
proof fn lemma_byte_from_digits(a: u8, b: u8)
    requires
        hex_digit(a >> 4) == hex_digit(b >> 4),
        hex_digit(a & 0xf) == hex_digit(b & 0xf),
    ensures
        a == b,
{
    assert((a >> 4) < 16 && (a & 0xf) < 16 && (b >> 4) < 16 && (b & 0xf) < 16) by (bit_vector);
    assert(a >> 4 == b >> 4);
    assert(a & 0xf == b & 0xf);
    assert(a >> 4 == b >> 4 && a & 0xf == b & 0xf ==> a == b) by (bit_vector);
}

/// Writing bytes as hexadecimal loses nothing: equal text comes from equal
/// bytes only.
pub proof fn lemma_hex_injective(a: Seq<u8>, b: Seq<u8>)
    requires
        hex_lower(a) == hex_lower(b),
    ensures
        a == b,
{
    assert(hex_lower(a).len() == 2 * a.len());
    assert(hex_lower(b).len() == 2 * b.len());
    assert(a.len() == b.len());
    assert forall|i: int| 0 <= i < a.len() implies a[i] == b[i] by {
        let hi = 2 * i;
        let lo = 2 * i + 1;
        assert(hi / 2 == i && hi % 2 == 0);
        assert(lo / 2 == i && lo % 2 == 1);
        assert(hex_lower(a)[hi] == hex_digit(a[i] >> 4));
        assert(hex_lower(b)[hi] == hex_digit(b[i] >> 4));
        assert(hex_lower(a)[lo] == hex_digit(a[i] & 0xf));
        assert(hex_lower(b)[lo] == hex_digit(b[i] & 0xf));
        lemma_byte_from_digits(a[i], b[i]);
    }
    assert(a =~= b);
}

/// The same password always has the same digest, and two passwords share a
/// stored digest only where SHA-512 gives their bytes the same value.
pub proof fn lemma_digest_deterministic(first: Seq<char>, second: Seq<char>)
    ensures
        first == second ==> password_digest(first) == password_digest(second),
        password_digest(first) == password_digest(second) ==> sha512(
            vstd::utf8::encode_utf8(first),
        ) == sha512(vstd::utf8::encode_utf8(second)),
{
    if password_digest(first) == password_digest(second) {
        lemma_hex_injective(
            sha512(vstd::utf8::encode_utf8(first)),
            sha512(vstd::utf8::encode_utf8(second)),
        );
    }
}

} // verus!
