//! The A-P nibble byte encoding used inside `byte_start` / `byte_end`
//! frames of the decompiler protocol.
//!
//! Each byte becomes two ASCII characters in `'A'..='P'`, high nibble
//! first, each carrying its nibble as an offset from `'A'`. The range
//! was chosen so that encoded bytes can never be mistaken for
//! PackedEncode bytes or for the `0x00 0x00 0x01` frame sentinel.

use vstd::prelude::*;
use crate::text::{ascii_to_string, bytes_as_chars};

verus! {

/// ASCII code of `'A'`, the character for nibble 0.
pub const NIBBLE_BASE: u8 = 0x41;

/// ASCII code of `'P'`, the character for nibble 15.
pub const NIBBLE_LAST: u8 = 0x50;

/// Why a byte string is not a valid A-P encoding.
#[derive(Debug, Clone, Copy, PartialEq, Eq)]
pub enum NibbleError {
    /// The payload has an odd number of characters.
    OddLength(usize),
    /// The byte is outside `'A'..='P'`.
    InvalidChar(u8),
}

/// The character code that carries nibble `n`.
pub open spec fn spec_nibble_char(n: int) -> u8 {
    (NIBBLE_BASE + n) as u8
}

/// A byte is one of the sixteen nibble characters.
pub open spec fn is_nibble_char(c: u8) -> bool {
    NIBBLE_BASE <= c <= NIBBLE_LAST
}

/// The A-P encoding of `bytes`: for byte `i`, character `2i` carries its
/// high nibble and character `2i + 1` its low nibble.
pub open spec fn spec_encode(bytes: Seq<u8>) -> Seq<u8> {
    Seq::new(
        2 * bytes.len(),
        |k: int|
            if k % 2 == 0 {
                spec_nibble_char(bytes[k / 2] as int / 16)
            } else {
                spec_nibble_char(bytes[k / 2] as int % 16)
            },
    )
}

/// The bytes that a well-formed A-P string stands for.
pub open spec fn spec_decode(s: Seq<u8>) -> Seq<u8> {
    Seq::new(
        s.len() / 2,
        |i: int| ((s[2 * i] - NIBBLE_BASE) * 16 + (s[2 * i + 1] - NIBBLE_BASE)) as u8,
    )
}

/// Index of the first character of `s` outside `'A'..='P'`, if any.
pub open spec fn first_invalid(s: Seq<u8>, i: int) -> bool {
    &&& 0 <= i < s.len()
    &&& !is_nibble_char(s[i])
    &&& forall|j: int| 0 <= j < i ==> is_nibble_char(#[trigger] s[j])
}

/// What [`decode`] answers for `s`.
pub open spec fn spec_decode_result(s: Seq<u8>) -> Result<Seq<u8>, NibbleError> {
    if s.len() % 2 != 0 {
        Err(NibbleError::OddLength(s.len() as usize))
    } else if exists|i: int| first_invalid(s, i) {
        let i = choose|i: int| first_invalid(s, i);
        Err(NibbleError::InvalidChar(s[i]))
    } else {
        Ok(spec_decode(s))
    }
}

/// The character for the nibble `n` (which must be below 16).
pub fn nibble_to_char(n: u8) -> (c: u8)
    requires
        n < 16,
    ensures
        c == spec_nibble_char(n as int),
        is_nibble_char(c),
{
    NIBBLE_BASE + n
}

/// The nibble carried by character `c`, or the error naming `c` when it
/// is not in `'A'..='P'`.
pub fn char_to_nibble(c: u8) -> (r: Result<u8, NibbleError>)
    ensures
        is_nibble_char(c) ==> r == Ok::<u8, NibbleError>((c - NIBBLE_BASE) as u8),
        !is_nibble_char(c) ==> r == Err::<u8, NibbleError>(NibbleError::InvalidChar(c)),
{
    if NIBBLE_BASE <= c && c <= NIBBLE_LAST {
        Ok(c - NIBBLE_BASE)
    } else {
        Err(NibbleError::InvalidChar(c))
    }
}

/// Appends the A-P encoding of `bytes` to `out`.
pub fn encode_into(bytes: &[u8], out: &mut Vec<u8>)
    ensures
        final(out)@ == old(out)@ + spec_encode(bytes@),
{
    let ghost start = out@;
    let mut i: usize = 0;
    while i < bytes.len()
        invariant
            i <= bytes.len(),
            out@ == start + spec_encode(bytes@.take(i as int)),
        decreases bytes.len() - i,
    {
        let b = bytes[i];
        let hi = nibble_to_char(b / 16);
        let lo = nibble_to_char(b % 16);
        out.push(hi);
        out.push(lo);
        proof {
            assert(spec_encode(bytes@.take(i + 1)) =~= spec_encode(bytes@.take(i as int)).push(
                hi,
            ).push(lo)) by {
                let s1 = spec_encode(bytes@.take(i + 1));
                let s0 = spec_encode(bytes@.take(i as int));
                assert forall|k: int| 0 <= k < s1.len() implies #[trigger] s1[k] == s0.push(
                    hi,
                ).push(lo)[k] by {
                    if k < 2 * i {
                        assert(bytes@.take(i + 1)[k / 2] == bytes@.take(i as int)[k / 2]);
                    }
                }
            }
        }
        i = i + 1;
    }
    assert(bytes@.take(bytes.len() as int) =~= bytes@);
}

/// Every character of an encoding is in `'A'..='P'`, so in particular
/// ASCII and never the byte `0x00`.
pub proof fn lemma_encode_chars(bytes: Seq<u8>)
    ensures
        spec_encode(bytes).len() == 2 * bytes.len(),
        forall|k: int| 0 <= k < spec_encode(bytes).len() ==> is_nibble_char(#[trigger] spec_encode(bytes)[k]),
{
}

/// The A-P encoding of `bytes` as text: exactly `2 * bytes.len()` ASCII
/// characters, all in `'A'..='P'`.
pub fn encode(bytes: &[u8]) -> (r: String)
    ensures
        r@ == bytes_as_chars(spec_encode(bytes@)),
{
    let mut out: Vec<u8> = Vec::new();
    encode_into(bytes, &mut out);
    proof {
        lemma_encode_chars(bytes@);
        assert(out@ =~= spec_encode(bytes@));
    }
    ascii_to_string(out.as_slice())
}

/// Decodes an A-P string back to bytes.
///
/// The input must have even length and consist of `'A'..='P'` only;
/// otherwise the error names the odd length, or the first offending
/// byte.
pub fn decode(s: &[u8]) -> (r: Result<Vec<u8>, NibbleError>)
    ensures
        r matches Ok(v) ==> spec_decode_result(s@) == Ok::<Seq<u8>, NibbleError>(v@),
        r matches Err(e) ==> spec_decode_result(s@) == Err::<Seq<u8>, NibbleError>(e),
{
    if s.len() % 2 != 0 {
        return Err(NibbleError::OddLength(s.len()));
    }
    let mut out: Vec<u8> = Vec::new();
    let mut i: usize = 0;
    while i < s.len() / 2
        invariant
            s.len() % 2 == 0,
            i <= s.len() / 2,
            out@ =~= spec_decode(s@).take(i as int),
            forall|j: int| 0 <= j < 2 * i ==> is_nibble_char(#[trigger] s@[j]),
        decreases s.len() / 2 - i,
    {
        let hi = match char_to_nibble(s[2 * i]) {
            Ok(n) => n,
            Err(e) => {
                assert(first_invalid(s@, 2 * i as int));
                return Err(e);
            },
        };
        let lo = match char_to_nibble(s[2 * i + 1]) {
            Ok(n) => n,
            Err(e) => {
                assert(first_invalid(s@, 2 * i + 1));
                return Err(e);
            },
        };
        out.push(hi * 16 + lo);
        i = i + 1;
    }
    proof {
        assert forall|k: int| !first_invalid(s@, k) by {
            if 0 <= k < s@.len() {
                assert(is_nibble_char(s@[k]));
            }
        }
        assert(spec_decode(s@).take(i as int) =~= spec_decode(s@));
    }
    Ok(out)
}

/// Decoding undoes encoding: `decode(encode(b)) == Ok(b)` for every
/// byte string `b`.
pub proof fn lemma_decode_encode(bytes: Seq<u8>)
    ensures
        spec_decode_result(spec_encode(bytes)) == Ok::<Seq<u8>, NibbleError>(bytes),
{
    let e = spec_encode(bytes);
    assert(e.len() % 2 == 0);
    assert forall|k: int| !first_invalid(e, k) by {
        if 0 <= k < e.len() {
            assert(is_nibble_char(e[k]));
        }
    }
    assert(spec_decode(e) =~= bytes) by {
        assert forall|i: int| 0 <= i < bytes.len() implies spec_decode(e)[i] == bytes[i] by {
            assert(e[2 * i] == spec_nibble_char(bytes[i] as int / 16));
            assert(e[2 * i + 1] == spec_nibble_char(bytes[i] as int % 16));
        }
    }
}

} // verus!
