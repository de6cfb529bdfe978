//! MD5 digests and their hexadecimal text.

use vstd::prelude::*;
use crate::text::{ascii_to_string, bytes_as_chars, all_ascii};

verus! {

/// The MD5 digest of `data` (RFC 1321), as the `md5` crate computes it.
pub uninterp spec fn md5_of(data: Seq<u8>) -> Seq<u8>;

/// The MD5 digest of `data`.
///
/// Wraps `md5::compute`, which returns the 16 digest bytes of RFC 1321
/// for the bytes given; the contract names that result, a function of
/// the input alone, and says no more of it.
#[verifier::external_body]
pub(crate) fn md5_digest(data: &[u8]) -> (r: [u8; 16])
    ensures
        r@ == md5_of(data@),
{
    md5::compute(data).0
}

/// The lowercase hexadecimal digit for `n` (below sixteen).
pub open spec fn hex_digit(n: int) -> u8 {
    if n < 10 {
        (0x30 + n) as u8
    } else {
        (0x61 + n - 10) as u8
    }
}

/// Two lowercase hexadecimal digits per byte, high nibble first.
pub open spec fn hex_bytes(b: Seq<u8>) -> Seq<u8> {
    Seq::new(
        2 * b.len(),
        |k: int|
            if k % 2 == 0 {
                hex_digit(b[k / 2] as int / 16)
            } else {
                hex_digit(b[k / 2] as int % 16)
            },
    )
}

/// The lowercase hexadecimal text of `b`.
pub open spec fn hex_text(b: Seq<u8>) -> Seq<char> {
    bytes_as_chars(hex_bytes(b))
}

/// The lowercase hexadecimal digit for `n`.
fn hex_digit_of(n: u8) -> (r: u8)
    requires
        n < 16,
    ensures
        r == hex_digit(n as int),
        r < 128,
{
    if n < 10 {
        0x30 + n
    } else {
        0x61 + n - 10
    }
}

/// Writes `b` as lowercase hexadecimal, two digits per byte.
pub fn to_hex(b: &[u8]) -> (r: String)
    ensures
        r@ == hex_text(b@),
{
    let mut out: Vec<u8> = Vec::new();
    let mut i: usize = 0;
    while i < b.len()
        invariant
            i <= b.len(),
            out@ =~= hex_bytes(b@.take(i as int)),
            all_ascii(out@),
        decreases b.len() - i,
    {
        out.push(hex_digit_of(b[i] / 16));
        out.push(hex_digit_of(b[i] % 16));
        i += 1;
        assert(out@ =~= hex_bytes(b@.take(i as int)));
    }
    assert(b@.take(b.len() as int) =~= b@);
    ascii_to_string(out.as_slice())
}

} // verus!
