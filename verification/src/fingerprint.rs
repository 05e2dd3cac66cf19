//! A short mark by which a query can be recognised in a log without being readable there.

use sha2::Digest;
use vstd::prelude::*;

verus! {

/// The number of characters of a fingerprint.
pub const FINGERPRINT_CHARS: usize = 16;

/// The SHA-256 digest of `data`.
pub uninterp spec fn sha256_of(data: Seq<u8>) -> Seq<u8>;

/// Calls `sha2::Sha256::digest`. The claim: the result is the digest of `data`, which depends on
/// the bytes of `data` alone; what the digest is, is left unsaid.
#[verifier::external_body]
fn sha256(data: &[u8]) -> (r: [u8; 32])
    ensures
        r@ == sha256_of(data@),
{
    sha2::Sha256::digest(data).into()
}

/// The lower-case hexadecimal digit `d`, for `d` below sixteen.
pub open spec fn hex_digit(d: nat) -> char {
    if d < 10 {
        (d + '0' as nat) as char
    } else {
        (d - 10 + 'a' as nat) as char
    }
}

/// `data` in hexadecimal: two lower-case digits for each byte, the higher one first.
pub open spec fn hex_of(data: Seq<u8>) -> Seq<char> {
    Seq::new(
        2 * data.len(),
        |i: int|
            if i % 2 == 0 {
                hex_digit(data[i / 2] as nat / 16)
            } else {
                hex_digit(data[i / 2] as nat % 16)
            },
    )
}

/// Calls `hex::encode`. The claim: the result holds two lower-case hexadecimal digits for each
/// byte of `data`, in order, the higher one first.
#[verifier::external_body]
fn hex_encode(data: &[u8; 32]) -> (r: String)
    ensures
        r@ == hex_of(data@),
{
    hex::encode(data)
}

/// The fingerprint for a digest: the head of its hexadecimal form.
pub fn fingerprint_of_digest(digest: &[u8; 32]) -> (r: String)
    ensures
        r@ == hex_of(digest@).take(FINGERPRINT_CHARS as int),
        r@.len() == FINGERPRINT_CHARS,
{
    let text = hex_encode(digest);
    let head = text.as_str().substring_char(0, FINGERPRINT_CHARS);
    assert(head@ =~= hex_of(digest@).take(FINGERPRINT_CHARS as int));
    head.to_owned()
}

/// The fingerprint of a query: the head of the hexadecimal form of its SHA-256 digest.
pub fn query_fingerprint(query: &str) -> (r: String)
    ensures
        r@ == hex_of(sha256_of(vstd::utf8::encode_utf8(query@))).take(FINGERPRINT_CHARS as int),
        r@.len() == FINGERPRINT_CHARS,
{
    fingerprint_of_digest(&sha256(query.as_bytes()))
}

// ---------------------------------------------------------------------------
// Laws
// ---------------------------------------------------------------------------

/// A fingerprint is made of lower-case hexadecimal digits, whatever the digest is.
pub proof fn law_fingerprint_digits(digest: Seq<u8>, i: int)
    requires
        digest.len() == 32,
        0 <= i < FINGERPRINT_CHARS,
    ensures
        '0' <= hex_of(digest).take(FINGERPRINT_CHARS as int)[i] <= '9' || 'a' <= hex_of(
            digest,
        ).take(FINGERPRINT_CHARS as int)[i] <= 'f',
{
}

/// The fingerprints of two digests are the same exactly where the digests agree in the bytes that
/// the fingerprint shows.
pub proof fn law_fingerprints_agree(a: Seq<u8>, b: Seq<u8>)
    requires
        a.len() == 32,
        b.len() == 32,
    ensures
        hex_of(a).take(FINGERPRINT_CHARS as int) == hex_of(b).take(FINGERPRINT_CHARS as int)
            <==> a.take(FINGERPRINT_CHARS as int / 2) == b.take(FINGERPRINT_CHARS as int / 2),
{
    let n = FINGERPRINT_CHARS as int;
    let x = hex_of(a).take(n);
    let y = hex_of(b).take(n);
    if a.take(n / 2) == b.take(n / 2) {
        assert forall|i: int| 0 <= i < n implies x[i] == y[i] by {
            assert(a.take(n / 2)[i / 2] == b.take(n / 2)[i / 2]);
        }
        assert(x =~= y);
    }
    if x == y {
        assert forall|k: int| 0 <= k < n / 2 implies a[k] == b[k] by {
            assert(x[2 * k] == y[2 * k]);
            assert(x[2 * k + 1] == y[2 * k + 1]);
            assert((2 * k) / 2 == k && (2 * k + 1) / 2 == k);
        }
        assert(a.take(n / 2) =~= b.take(n / 2));
    }
}

/// The number that a lower-case hexadecimal digit denotes.
pub open spec fn hex_value(c: char) -> int {
    if '0' <= c <= '9' {
        c as int - 48
    } else {
        c as int - 87
    }
}

/// Hexadecimal form holds two lower-case digits for each byte, which denote it.
pub proof fn law_hex(data: Seq<u8>, i: int)
    requires
        0 <= i < data.len(),
    ensures
        hex_of(data).len() == 2 * data.len(),
        16 * hex_value(hex_of(data)[2 * i]) + hex_value(hex_of(data)[2 * i + 1]) == data[i],
        '0' <= hex_of(data)[2 * i] <= '9' || 'a' <= hex_of(data)[2 * i] <= 'f',
        '0' <= hex_of(data)[2 * i + 1] <= '9' || 'a' <= hex_of(data)[2 * i + 1] <= 'f',
{
    assert((2 * i) / 2 == i && (2 * i + 1) / 2 == i);
    assert((2 * i) % 2 == 0 && (2 * i + 1) % 2 == 1);
}

} // verus!
