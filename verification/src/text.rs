//! Byte-to-text conversions shared by the codecs.

use vstd::prelude::*;
use vstd::utf8::*;

verus! {

/// Interprets `bytes` as UTF-8 text.
///
/// Wraps `std::str::from_utf8`, which returns the borrowed string
/// exactly when the bytes are well-formed UTF-8; the string then holds
/// the decoded scalar values.
#[verifier::external_body]
pub(crate) fn utf8_str(bytes: &[u8]) -> (r: Option<&str>)
    ensures
        r is Some <==> valid_utf8(bytes@),
        r matches Some(s) ==> s@ == decode_utf8(bytes@),
{
    std::str::from_utf8(bytes).ok()
}

/// The characters whose code points are the given bytes.
pub open spec fn bytes_as_chars(b: Seq<u8>) -> Seq<char> {
    Seq::new(b.len(), |i: int| b[i] as char)
}

/// Every byte is 7-bit ASCII.
pub open spec fn all_ascii(b: Seq<u8>) -> bool {
    forall|i: int| 0 <= i < b.len() ==> b[i] < 128
}

/// ASCII bytes are well-formed UTF-8 and decode to the characters with
/// the same code points.
pub proof fn lemma_ascii_bytes_utf8(b: Seq<u8>)
    requires
        all_ascii(b),
    ensures
        valid_utf8(b),
        decode_utf8(b) == bytes_as_chars(b),
{
    let chars = bytes_as_chars(b);
    assert(is_ascii_chars(chars)) by {
        assert forall|i: int| 0 <= i < chars.len() implies '\0' <= #[trigger] chars[i] <= '\u{7f}' by {
            assert(chars[i] == b[i] as char);
        }
    }
    is_ascii_chars_encode_utf8(chars);
    assert(encode_utf8(chars) =~= b) by {
        assert forall|i: int| 0 <= i < b.len() implies encode_utf8(chars)[i] == b[i] by {
            assert((chars[i] as u8) == b[i]);
        }
    }
    encode_utf8_valid_utf8(chars);
    encode_utf8_decode_utf8(chars);
}

/// Turns ASCII bytes into an owned string with the same characters.
pub fn ascii_to_string(bytes: &[u8]) -> (r: String)
    requires
        all_ascii(bytes@),
    ensures
        r@ == bytes_as_chars(bytes@),
{
    proof {
        lemma_ascii_bytes_utf8(bytes@);
    }
    match utf8_str(bytes) {
        Some(s) => s.to_owned(),
        None => {
            assert(false);
            String::new()
        },
    }
}

/// The lowercase form of `s` under Unicode's case mapping, as
/// `str::to_lowercase` computes it.
pub uninterp spec fn lowercase_of(s: Seq<char>) -> Seq<char>;

/// Lowercases `s`.
///
/// Wraps `str::to_lowercase`. Its documentation defines the result by the
/// Unicode `Lowercase` property and the language-independent mappings of
/// `SpecialCasing.txt`, which depend on the characters alone; the
/// contract names that result and says no more of it.
#[verifier::external_body]
pub(crate) fn lowercase(s: &str) -> (r: String)
    ensures
        r@ == lowercase_of(s@),
{
    s.to_lowercase()
}

/// A character with Unicode's `White_Space` property.
pub open spec fn is_white_space(c: char) -> bool {
    let u = c as u32;
    ||| 0x9 <= u <= 0xd
    ||| u == 0x20
    ||| u == 0x85
    ||| u == 0xa0
    ||| u == 0x1680
    ||| 0x2000 <= u <= 0x200a
    ||| u == 0x2028
    ||| u == 0x2029
    ||| u == 0x202f
    ||| u == 0x205f
    ||| u == 0x3000
}

/// `s` without its leading white space.
pub open spec fn trim_start_of(s: Seq<char>) -> Seq<char>
    decreases s.len(),
{
    if s.len() > 0 && is_white_space(s[0]) {
        trim_start_of(s.drop_first())
    } else {
        s
    }
}

/// `s` without its trailing white space.
pub open spec fn trim_end_of(s: Seq<char>) -> Seq<char>
    decreases s.len(),
{
    if s.len() > 0 && is_white_space(s.last()) {
        trim_end_of(s.drop_last())
    } else {
        s
    }
}

/// `s` without leading and trailing white space.
pub open spec fn trimmed_of(s: Seq<char>) -> Seq<char> {
    trim_end_of(trim_start_of(s))
}

/// Trims white space from both ends of `s`.
///
/// Wraps `str::trim`, documented to remove the leading and trailing
/// characters that have Unicode's `White_Space` property (the code
/// points that [`is_white_space`] lists).
#[verifier::external_body]
pub(crate) fn trim(s: &str) -> (r: String)
    ensures
        r@ == trimmed_of(s@),
{
    s.trim().to_owned()
}

/// Where the first `\n` at or after `i` is (`s.len()` when none).
pub open spec fn newline_from(s: Seq<char>, i: int) -> int
    decreases s.len() - i,
{
    if i >= s.len() {
        s.len() as int
    } else if s[i] == '\n' {
        i
    } else {
        newline_from(s, i + 1)
    }
}

pub proof fn lemma_newline_from_bounds(s: Seq<char>, i: int)
    requires
        0 <= i,
    ensures
        i <= s.len() ==> i <= newline_from(s, i) <= s.len(),
        newline_from(s, i) < s.len() ==> s[newline_from(s, i)] == '\n',
        forall|k: int| i <= k < newline_from(s, i) ==> s[k] != '\n',
    decreases s.len() - i,
{
    if i < s.len() && s[i] != '\n' {
        lemma_newline_from_bounds(s, i + 1);
    }
}

/// A line without the `\r` of a `\r\n` ending.
pub open spec fn without_cr(line: Seq<char>) -> Seq<char> {
    if line.len() > 0 && line.last() == '\r' {
        line.drop_last()
    } else {
        line
    }
}

/// The lines of `s` from index `start` on.
pub open spec fn lines_from(s: Seq<char>, start: int) -> Seq<Seq<char>>
    decreases s.len() - start,
{
    if start < 0 || start >= s.len() {
        Seq::empty()
    } else {
        let end = newline_from(s, start);
        proof {
            lemma_newline_from_bounds(s, start);
        }
        if end >= s.len() {
            seq![s.subrange(start, s.len() as int)]
        } else {
            seq![without_cr(s.subrange(start, end))] + lines_from(s, end + 1)
        }
    }
}

/// The lines of `s`: split at each `\n`, a `\r` before it dropped, and
/// no empty line after a final `\n`.
pub open spec fn lines_of(s: Seq<char>) -> Seq<Seq<char>> {
    lines_from(s, 0)
}

/// Splits `s` into lines.
///
/// Wraps `str::lines`, documented to split at `\n` and `\r\n` line
/// endings, leaving the endings out, with the final ending optional; the
/// contract states that.
#[verifier::external_body]
pub(crate) fn text_lines(s: &str) -> (r: Vec<String>)
    ensures
        texts(r@) == lines_of(s@),
{
    s.lines().map(|l| l.to_owned()).collect()
}

/// The texts of a list of strings.
pub open spec fn texts(v: Seq<String>) -> Seq<Seq<char>> {
    v.map_values(|s: String| s@)
}

/// `parts` joined with `sep` between neighbours.
pub open spec fn joined(parts: Seq<Seq<char>>, sep: Seq<char>) -> Seq<char>
    decreases parts.len(),
{
    if parts.len() == 0 {
        Seq::empty()
    } else if parts.len() == 1 {
        parts[0]
    } else {
        joined(parts.drop_last(), sep) + sep + parts.last()
    }
}

/// Joins `parts` with `sep` between neighbours.
pub fn join(parts: &Vec<String>, sep: &str) -> (r: String)
    ensures
        r@ == joined(texts(parts@), sep@),
{
    let mut out = String::new();
    let mut i: usize = 0;
    while i < parts.len()
        invariant
            i <= parts.len(),
            out@ == joined(texts(parts@.take(i as int)), sep@),
        decreases parts.len() - i,
    {
        proof {
            assert(texts(parts@.take(i + 1)).drop_last() =~= texts(parts@.take(i as int)));
        }
        if i > 0 {
            out.append(sep);
        }
        out.append(parts[i].as_str());
        i += 1;
    }
    assert(parts@.take(parts.len() as int) =~= parts@);
    out
}

/// The ASCII digit for `d` (below ten).
pub open spec fn digit_char(d: nat) -> char {
    (0x30 + d) as char
}

/// The decimal numeral of `n`, without leading zeros.
pub open spec fn decimal(n: nat) -> Seq<char>
    decreases n,
{
    if n < 10 {
        seq![digit_char(n)]
    } else {
        decimal(n / 10).push(digit_char(n % 10))
    }
}

/// Distinct numbers have distinct numerals.
pub proof fn lemma_decimal_injective(a: nat, b: nat)
    requires
        decimal(a) == decimal(b),
    ensures
        a == b,
    decreases a,
{
    if a < 10 && b < 10 {
        let ca = digit_char(a);
        let cb = digit_char(b);
        assert(decimal(a) == seq![ca]);
        assert(decimal(b) == seq![cb]);
        assert(seq![ca][0] == seq![cb][0]);
        assert(ca as u32 == 0x30 + a);
        assert(cb as u32 == 0x30 + b);
    } else if a >= 10 && b >= 10 {
        let ca = digit_char(a % 10);
        let cb = digit_char(b % 10);
        let pa = decimal(a / 10);
        let pb = decimal(b / 10);
        assert(decimal(a) == pa.push(ca));
        assert(decimal(b) == pb.push(cb));
        assert(pa.push(ca).drop_last() =~= pa);
        assert(pb.push(cb).drop_last() =~= pb);
        assert(pa.push(ca)[pa.len() as int] == ca);
        assert(pb.push(cb)[pb.len() as int] == cb);
        assert(pa.len() == pb.len());
        assert(ca == cb);
        assert(ca as u32 == 0x30 + a % 10);
        assert(cb as u32 == 0x30 + b % 10);
        lemma_decimal_injective(a / 10, b / 10);
        assert(a == (a / 10) * 10 + a % 10);
        assert(b == (b / 10) * 10 + b % 10);
    } else if a < 10 {
        assert(decimal(a).len() == 1);
        assert(decimal(b / 10).len() >= 1);
        assert(decimal(b) == decimal(b / 10).push(digit_char(b % 10)));
    } else {
        assert(decimal(b).len() == 1);
        assert(decimal(a / 10).len() >= 1);
        assert(decimal(a) == decimal(a / 10).push(digit_char(a % 10)));
    }
}

/// The decimal numeral of a signed value: a minus sign before the
/// numeral of its magnitude when it is negative.
pub open spec fn signed_decimal(n: int) -> Seq<char> {
    if n < 0 {
        seq!['-'] + decimal((-n) as nat)
    } else {
        decimal(n as nat)
    }
}

/// Appends the ASCII numeral of `n` to `out`.
fn push_decimal(n: u64, out: &mut Vec<u8>)
    ensures
        bytes_as_chars(final(out)@) == bytes_as_chars(old(out)@) + decimal(n as nat),
        all_ascii(old(out)@) ==> all_ascii(final(out)@),
    decreases n,
{
    if n >= 10 {
        push_decimal(n / 10, out);
    }
    let ghost before = out@;
    out.push(0x30 + (n % 10) as u8);
    assert(bytes_as_chars(out@) =~= bytes_as_chars(before).push(digit_char((n % 10) as nat)));
}

/// The decimal numeral of `n`.
pub fn u64_decimal(n: u64) -> (r: String)
    ensures
        r@ == decimal(n as nat),
{
    let mut buf: Vec<u8> = Vec::new();
    push_decimal(n, &mut buf);
    assert(bytes_as_chars(Seq::<u8>::empty()) =~= Seq::<char>::empty());
    ascii_to_string(buf.as_slice())
}

/// The decimal numeral of a signed `n`.
pub fn i64_decimal(n: i64) -> (r: String)
    ensures
        r@ == signed_decimal(n as int),
{
    let mut buf: Vec<u8> = Vec::new();
    if n < 0 {
        buf.push(0x2d);
        let magnitude: u64 = (0i128 - n as i128) as u64;
        push_decimal(magnitude, &mut buf);
        assert(bytes_as_chars(seq![0x2du8]) =~= seq!['-']);
    } else {
        push_decimal(n as u64, &mut buf);
        assert(bytes_as_chars(Seq::<u8>::empty()) =~= Seq::<char>::empty());
    }
    ascii_to_string(buf.as_slice())
}

/// Byte-wise equality of two slices.
pub fn bytes_eq(a: &[u8], b: &[u8]) -> (r: bool)
    ensures
        r == (a@ == b@),
{
    if a.len() != b.len() {
        return false;
    }
    let mut i: usize = 0;
    while i < a.len()
        invariant
            a.len() == b.len(),
            i <= a.len(),
            forall|j: int| 0 <= j < i ==> a@[j] == b@[j],
        decreases a.len() - i,
    {
        if a[i] != b[i] {
            return false;
        }
        i += 1;
    }
    assert(a@ =~= b@);
    true
}

/// Equality of two strings, character by character.
pub fn str_eq(a: &str, b: &str) -> (r: bool)
    ensures
        r == (a@ == b@),
{
    let same = bytes_eq(a.as_bytes(), b.as_bytes());
    proof {
        encode_utf8_decode_utf8(a@);
        encode_utf8_decode_utf8(b@);
    }
    same
}

} // verus!
