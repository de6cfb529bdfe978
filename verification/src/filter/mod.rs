//! Query filters: the expression language ([`parser`]), its operators,
//! and the parts of their evaluation that work on text — finding a field
//! by its dotted path, existence checks, and the string operators.
//!
//! A field path is a `.`-separated list of member names; a segment
//! `name[i]` selects element `i` of the array under `name`.

use vstd::prelude::*;
use vstd::string::StringSliceAdditionalSpecFns;
use vstd::utf8::encode_utf8;
use crate::error::GhidraError;
use crate::format::{JsonValue, JsonObject};
use crate::ilspy::commands::has_substring;
use crate::ilspy::detect::contains;
use crate::text::{bytes_eq, lowercase, lowercase_of};

pub mod parser;

pub use parser::{parse_filter, Filter, FilterExpr, Value};

verus! {

/// Comparison operators (`=`, `!=`, `>`, `>=`, `<`, `<=`).
#[derive(Clone, Copy, Debug, PartialEq, Eq, Structural)]
pub enum CompareOp {
    Equal,
    NotEqual,
    Greater,
    GreaterEqual,
    Less,
    LessEqual,
}

/// String operators: contains (`~`), starts with (`^`), ends with
/// (`$`), matches a regular expression (`=~`).
#[derive(Clone, Copy, Debug, PartialEq, Eq, Structural)]
pub enum StringOp {
    Contains,
    StartsWith,
    EndsWith,
    Regex,
}

/// How the operands of a logical expression combine.
#[derive(Clone, Copy, Debug, PartialEq, Eq, Structural)]
pub enum LogicalOp {
    And,
    Or,
}

/// Checks on a field's presence.
#[derive(Clone, Copy, Debug, PartialEq, Eq, Structural)]
pub enum ExistenceCheck {
    /// The field is present.
    Exists,
    /// The field is absent, null, or an empty string, array or object.
    Empty,
    /// The field is absent or null.
    Null,
}

/// The first index at or after `i` where `b` holds `c` (`b.len()` when
/// none).
pub open spec fn byte_from(b: Seq<u8>, c: u8, i: int) -> int
    decreases b.len() - i,
{
    if i >= b.len() {
        b.len() as int
    } else if b[i] == c {
        i
    } else {
        byte_from(b, c, i + 1)
    }
}

pub proof fn lemma_byte_from(b: Seq<u8>, c: u8, i: int)
    requires
        0 <= i <= b.len(),
    ensures
        i <= byte_from(b, c, i) <= b.len(),
        byte_from(b, c, i) < b.len() ==> b[byte_from(b, c, i)] == c,
        forall|k: int| i <= k < byte_from(b, c, i) ==> b[k] != c,
    decreases b.len() - i,
{
    if i < b.len() && b[i] != c {
        lemma_byte_from(b, c, i + 1);
    }
}

/// The `.`-separated pieces of `b` from `start` on.
pub open spec fn pieces_from(b: Seq<u8>, start: int) -> Seq<Seq<u8>>
    decreases b.len() - start,
{
    if start < 0 || start > b.len() {
        Seq::empty()
    } else {
        let e = byte_from(b, 0x2e, start);
        proof {
            lemma_byte_from(b, 0x2e, start);
        }
        if e >= b.len() {
            seq![b.subrange(start, b.len() as int)]
        } else {
            seq![b.subrange(start, e)] + pieces_from(b, e + 1)
        }
    }
}

/// The segments of a field path.
pub open spec fn path_segments(field: Seq<char>) -> Seq<Seq<u8>> {
    pieces_from(encode_utf8(field), 0)
}

/// A segment with a `[` can be cut into a name and an index: there is
/// room for the closing byte, and that byte is ASCII.
pub open spec fn segment_well_formed(seg: Seq<u8>) -> bool {
    let p = byte_from(seg, 0x5b, 0);
    p < seg.len() ==> (seg.len() >= p + 2 && seg.last() < 0x80)
}

/// The value of the first member whose key has the bytes `key`.
pub open spec fn member_named(ms: Seq<(String, JsonValue)>, key: Seq<u8>) -> Option<JsonValue>
    decreases ms.len(),
{
    if ms.len() == 0 {
        None
    } else if encode_utf8(ms[0].0@) == key {
        Some(ms[0].1)
    } else {
        member_named(ms.drop_first(), key)
    }
}

/// `v[key]` for an object, nothing otherwise.
pub open spec fn get_key(v: JsonValue, key: Seq<u8>) -> Option<JsonValue> {
    match v {
        JsonValue::Object(o) => member_named(o.members@, key),
        _ => None,
    }
}

/// `v[i]` for an array long enough, nothing otherwise.
pub open spec fn get_index(v: JsonValue, i: nat) -> Option<JsonValue> {
    match v {
        JsonValue::Array(items) => if i < items@.len() {
            Some(items@[i as int])
        } else {
            None
        },
        _ => None,
    }
}

/// The number that decimal digits spell.
pub open spec fn decimal_number(d: Seq<u8>) -> nat
    decreases d.len(),
{
    if d.len() == 0 {
        0
    } else {
        decimal_number(d.drop_last()) * 10 + (d.last() - 0x30) as nat
    }
}

/// The digits of an index: the text without one leading `+`.
pub open spec fn index_digits(s: Seq<u8>) -> Seq<u8> {
    if s.len() > 0 && s[0] == 0x2b {
        s.drop_first()
    } else {
        s
    }
}

/// Every byte is a decimal digit.
pub open spec fn all_digits(d: Seq<u8>) -> bool {
    forall|i: int| 0 <= i < d.len() ==> 0x30 <= #[trigger] d[i] <= 0x39
}

/// `str::parse::<usize>`: an optional `+`, then one or more decimal
/// digits whose value fits.
pub open spec fn parse_index(s: Seq<u8>) -> Option<nat> {
    let d = index_digits(s);
    if d.len() > 0 && all_digits(d) && decimal_number(d) <= usize::MAX {
        Some(decimal_number(d))
    } else {
        None
    }
}

/// One step along a path.
pub open spec fn path_step(v: JsonValue, seg: Seq<u8>) -> Option<JsonValue> {
    let p = byte_from(seg, 0x5b, 0);
    if p < seg.len() {
        match get_key(v, seg.subrange(0, p)) {
            None => None,
            Some(c) => match parse_index(seg.subrange(p + 1, seg.len() - 1)) {
                None => None,
                Some(i) => get_index(c, i),
            },
        }
    } else {
        get_key(v, seg)
    }
}

/// The value found by following `segs` from `v`.
pub open spec fn follow(v: JsonValue, segs: Seq<Seq<u8>>) -> Option<JsonValue>
    decreases segs.len(),
{
    if segs.len() == 0 {
        Some(v)
    } else {
        match path_step(v, segs[0]) {
            None => None,
            Some(c) => follow(c, segs.drop_first()),
        }
    }
}

/// Walking `segs` from `v` reaches a segment with a `[` that cannot be
/// cut into a name and an index (the walk stops earlier when a step
/// finds nothing).
pub open spec fn path_breaks(v: JsonValue, segs: Seq<Seq<u8>>) -> bool
    decreases segs.len(),
{
    if segs.len() == 0 {
        false
    } else if !segment_well_formed(segs[0]) {
        true
    } else {
        match path_step(v, segs[0]) {
            None => false,
            Some(c) => path_breaks(c, segs.drop_first()),
        }
    }
}

/// Where byte `c` first occurs in `b` at or after `from`.
fn find_byte(b: &[u8], c: u8, from: usize) -> (r: usize)
    requires
        from <= b@.len(),
    ensures
        r as int == byte_from(b@, c, from as int),
{
    let mut i = from;
    while i < b.len()
        invariant
            from <= i <= b@.len(),
            byte_from(b@, c, from as int) == byte_from(b@, c, i as int),
        decreases b@.len() - i,
    {
        if b[i] == c {
            return i;
        }
        i += 1;
    }
    i
}

/// `b[start..end]`.
fn cut(b: &[u8], start: usize, end: usize) -> (r: &[u8])
    requires
        start <= end <= b@.len(),
    ensures
        r@ == b@.subrange(start as int, end as int),
{
    let (_, tail) = b.split_at(start);
    let (mid, _) = tail.split_at(end - start);
    assert(mid@ =~= b@.subrange(start as int, end as int));
    mid
}

/// `v[key]` for an object.
fn get_key_of<'a>(v: &'a JsonValue, key: &[u8]) -> (r: Option<&'a JsonValue>)
    ensures
        match r {
            Some(x) => get_key(*v, key@) == Some(*x),
            None => get_key(*v, key@) is None,
        },
{
    match v {
        JsonValue::Object(o) => {
            let mut i: usize = 0;
            assert(o.members@.skip(0) =~= o.members@);
            while i < o.members.len()
                invariant
                    i <= o.members@.len(),
                    get_key(*v, key@) == member_named(o.members@, key@),
                    member_named(o.members@, key@) == member_named(o.members@.skip(i as int), key@),
                decreases o.members@.len() - i,
            {
                assert(o.members@.skip(i as int)[0] == o.members@[i as int]);
                if bytes_eq(o.members[i].0.as_str().as_bytes(), key) {
                    return Some(&o.members[i].1);
                }
                assert(o.members@.skip(i as int).drop_first() =~= o.members@.skip(i + 1));
                i += 1;
            }
            None
        },
        _ => None,
    }
}

/// `v[i]` for an array.
fn get_index_of<'a>(v: &'a JsonValue, i: usize) -> (r: Option<&'a JsonValue>)
    ensures
        match r {
            Some(x) => get_index(*v, i as nat) == Some(*x),
            None => get_index(*v, i as nat) is None,
        },
{
    match v {
        JsonValue::Array(items) => if i < items.len() {
            Some(&items[i])
        } else {
            None
        },
        _ => None,
    }
}

/// Parses an array index.
fn parse_index_of(s: &[u8]) -> (r: Option<usize>)
    ensures
        match r {
            Some(n) => parse_index(s@) == Some(n as nat),
            None => parse_index(s@) is None,
        },
{
    let d: &[u8] = if s.len() > 0 && s[0] == 0x2b {
        let (_, rest) = s.split_at(1);
        assert(rest@ =~= s@.drop_first());
        rest
    } else {
        s
    };
    if d.len() == 0 {
        return None;
    }
    let mut v: usize = 0;
    let mut i: usize = 0;
    assert(d@.take(0) =~= Seq::<u8>::empty());
    while i < d.len()
        invariant
            i <= d@.len(),
            d@.len() > 0,
            d@ == index_digits(s@),
            v as nat == decimal_number(d@.take(i as int)),
            forall|k: int| 0 <= k < i ==> 0x30 <= #[trigger] d@[k] <= 0x39,
        decreases d@.len() - i,
    {
        let b = d[i];
        if b < 0x30 || b > 0x39 {
            assert(!(0x30 <= d@[i as int] <= 0x39));
            assert(!all_digits(d@));
            return None;
        }
        assert(d@.take(i + 1).drop_last() =~= d@.take(i as int));
        assert(decimal_number(d@.take(i + 1)) == v as nat * 10 + (b - 0x30) as nat);
        match v.checked_mul(10) {
            Some(m) => match m.checked_add((b - 0x30) as usize) {
                Some(n) => {
                    v = n;
                },
                None => {
                    proof {
                        lemma_decimal_prefix(d@, i + 1);
                    }
                    return None;
                },
            },
            None => {
                proof {
                    lemma_decimal_prefix(d@, i + 1);
                }
                return None;
            },
        }
        i += 1;
    }
    assert(d@.take(d@.len() as int) =~= d@);
    Some(v)
}

proof fn lemma_decimal_prefix(d: Seq<u8>, j: int)
    requires
        0 <= j <= d.len(),
        forall|k: int| 0 <= k < j ==> 0x30 <= #[trigger] d[k] <= 0x39,
    ensures
        all_digits(d) ==> decimal_number(d.take(j)) <= decimal_number(d),
    decreases d.len() - j,
{
    if all_digits(d) {
        if j < d.len() {
            lemma_decimal_prefix(d, j + 1);
            assert(d.take(j + 1).drop_last() =~= d.take(j));
        } else {
            assert(d.take(j) =~= d);
        }
    }
}

/// One step along a path.
fn step_of<'a>(v: &'a JsonValue, seg: &[u8]) -> (r: Option<&'a JsonValue>)
    requires
        segment_well_formed(seg@),
    ensures
        match r {
            Some(x) => path_step(*v, seg@) == Some(*x),
            None => path_step(*v, seg@) is None,
        },
{
    let p = find_byte(seg, 0x5b, 0);
    if p < seg.len() {
        let name = cut(seg, 0, p);
        let index_text = cut(seg, p + 1, seg.len() - 1);
        match get_key_of(v, name) {
            None => None,
            Some(c) => match parse_index_of(index_text) {
                None => None,
                Some(i) => get_index_of(c, i),
            },
        }
    } else {
        get_key_of(v, seg)
    }
}

/// The value at a field path, if the path leads anywhere. Each segment
/// with a `[` must end in an ASCII byte at least two bytes after it.
pub fn get_field_value<'a>(field: &str, data: &'a JsonValue) -> (r: Option<&'a JsonValue>)
    requires
        !path_breaks(*data, path_segments(field@)),
    ensures
        match r {
            Some(x) => follow(*data, path_segments(field@)) == Some(*x),
            None => follow(*data, path_segments(field@)) is None,
        },
{
    let b = field.as_bytes();
    let mut current: &JsonValue = data;
    let mut start: usize = 0;
    loop
        invariant
            start <= b@.len(),
            b@ == encode_utf8(field@),
            follow(*data, path_segments(field@)) == follow(*current, pieces_from(b@, start as int)),
            !path_breaks(*current, pieces_from(b@, start as int)),
        decreases b@.len() - start,
    {
        let e = find_byte(b, 0x2e, start);
        proof {
            lemma_byte_from(b@, 0x2e, start as int);
        }
        let seg = cut(b, start, e);
        let ghost ps = pieces_from(b@, start as int);
        assert(ps[0] == seg@);
        let next = match step_of(current, seg) {
            Some(c) => c,
            None => {
                return None;
            },
        };
        if e >= b.len() {
            assert(ps.drop_first() =~= Seq::<Seq<u8>>::empty());
            assert(follow(*next, Seq::<Seq<u8>>::empty()) == Some(*next));
            assert(follow(*current, ps) == follow(*next, ps.drop_first()));
            return Some(next);
        }
        assert(ps.drop_first() =~= pieces_from(b@, e + 1));
        current = next;
        start = e + 1;
    }
}

/// Whether a segment can be cut into a name and an index.
fn segment_ok(seg: &[u8]) -> (r: bool)
    ensures
        r == segment_well_formed(seg@),
{
    let p = find_byte(seg, 0x5b, 0);
    if p < seg.len() {
        seg.len() - p >= 2 && seg[seg.len() - 1] < 0x80
    } else {
        true
    }
}

/// Whether looking up `field` in `data` reaches a segment with a `[`
/// that cannot be cut into a name and an index; the lookups of this
/// module accept only fields for which it does not.
pub fn field_path_breaks(field: &str, data: &JsonValue) -> (r: bool)
    ensures
        r == path_breaks(*data, path_segments(field@)),
{
    let b = field.as_bytes();
    let mut current: &JsonValue = data;
    let mut start: usize = 0;
    loop
        invariant
            start <= b@.len(),
            b@ == encode_utf8(field@),
            path_breaks(*data, path_segments(field@)) == path_breaks(*current, pieces_from(b@, start as int)),
        decreases b@.len() - start,
    {
        let e = find_byte(b, 0x2e, start);
        proof {
            lemma_byte_from(b@, 0x2e, start as int);
        }
        let seg = cut(b, start, e);
        let ghost ps = pieces_from(b@, start as int);
        assert(ps[0] == seg@);
        if !segment_ok(seg) {
            return true;
        }
        let next = match step_of(current, seg) {
            Some(c) => c,
            None => {
                return false;
            },
        };
        assert(path_breaks(*current, ps) == path_breaks(*next, ps.drop_first()));
        if e >= b.len() {
            assert(ps.drop_first() =~= Seq::<Seq<u8>>::empty());
            assert(!path_breaks(*next, Seq::<Seq<u8>>::empty()));
            return false;
        }
        assert(ps.drop_first() =~= pieces_from(b@, e + 1));
        current = next;
        start = e + 1;
    }
}

/// Whether an existence check holds of what a path found.
pub open spec fn exists_holds(found: Option<JsonValue>, check: ExistenceCheck) -> bool {
    match check {
        ExistenceCheck::Exists => found is Some,
        ExistenceCheck::Empty => match found {
            None => true,
            Some(JsonValue::Null) => true,
            Some(JsonValue::Str(s)) => s@.len() == 0,
            Some(JsonValue::Array(a)) => a@.len() == 0,
            Some(JsonValue::Object(o)) => o.members@.len() == 0,
            _ => false,
        },
        ExistenceCheck::Null => match found {
            None => true,
            Some(JsonValue::Null) => true,
            _ => false,
        },
    }
}

/// Evaluates an existence check on the field at `field`.
pub fn evaluate_exists(field: &str, check: ExistenceCheck, data: &JsonValue) -> (r: bool)
    requires
        !path_breaks(*data, path_segments(field@)),
    ensures
        r == exists_holds(follow(*data, path_segments(field@)), check),
{
    let found = get_field_value(field, data);
    match check {
        ExistenceCheck::Exists => found.is_some(),
        ExistenceCheck::Empty => match found {
            None => true,
            Some(JsonValue::Null) => true,
            Some(JsonValue::Str(s)) => s.as_str().is_empty(),
            Some(JsonValue::Array(a)) => a.len() == 0,
            Some(JsonValue::Object(o)) => o.members.len() == 0,
            _ => false,
        },
        ExistenceCheck::Null => match found {
            None => true,
            Some(JsonValue::Null) => true,
            _ => false,
        },
    }
}

/// The encoding of `hay` starts with that of `needle`.
pub open spec fn starts_with(hay: Seq<char>, needle: Seq<char>) -> bool {
    let h = encode_utf8(hay);
    let n = encode_utf8(needle);
    n.len() <= h.len() && h.subrange(0, n.len() as int) == n
}

/// The encoding of `hay` ends with that of `needle`.
pub open spec fn ends_with(hay: Seq<char>, needle: Seq<char>) -> bool {
    let h = encode_utf8(hay);
    let n = encode_utf8(needle);
    n.len() <= h.len() && h.subrange(h.len() - n.len(), h.len() as int) == n
}

/// The message of the error that compiling `pattern` as a regular
/// expression gives, if it gives one.
pub uninterp spec fn regex_compile_error(pattern: Seq<char>) -> Option<Seq<char>>;

/// Whether `pattern` matches somewhere in `text`, as the `regex` crate
/// decides it.
pub uninterp spec fn regex_finds(pattern: Seq<char>, text: Seq<char>) -> bool;

/// The text a string operator works on: a string lowercased, a number
/// or boolean as written; other values have none.
pub open spec fn operand_text(v: JsonValue) -> Option<Seq<char>> {
    match v {
        JsonValue::Str(s) => Some(lowercase_of(s@)),
        JsonValue::Number(t) => Some(t@),
        JsonValue::Bool(b) => Some(if b { "true"@ } else { "false"@ }),
        _ => None,
    }
}

/// Matches `text` against `pattern`, or reports why the pattern does not
/// compile.
///
/// Wraps `regex::Regex::new` (which accepts or rejects a pattern by its
/// text alone, under the default size limits) and `Regex::is_match`: the
/// outcome depends on the pattern and the text alone, and the contract
/// names it.
#[verifier::external_body]
pub(crate) fn regex_match(pattern: &str, text: &str) -> (r: Result<bool, String>)
    ensures
        match regex_compile_error(pattern@) {
            Some(e) => r matches Err(m) && m@ == e,
            None => r == Ok::<bool, String>(regex_finds(pattern@, text@)),
        },
{
    match regex::Regex::new(pattern) {
        Ok(re) => Ok(re.is_match(text)),
        Err(e) => Err(e.to_string()),
    }
}

/// Whether `hay` starts with `needle`.
fn has_prefix(hay: &str, needle: &str) -> (r: bool)
    ensures
        r == starts_with(hay@, needle@),
{
    let h = hay.as_bytes();
    let n = needle.as_bytes();
    if n.len() > h.len() {
        return false;
    }
    bytes_eq(cut(h, 0, n.len()), n)
}

/// Whether `hay` ends with `needle`.
fn has_suffix(hay: &str, needle: &str) -> (r: bool)
    ensures
        r == ends_with(hay@, needle@),
{
    let h = hay.as_bytes();
    let n = needle.as_bytes();
    if n.len() > h.len() {
        return false;
    }
    bytes_eq(cut(h, h.len() - n.len(), h.len()), n)
}

/// The text a string operator works on.
fn operand_of(v: &JsonValue) -> (r: Option<String>)
    ensures
        match r {
            Some(t) => operand_text(*v) == Some(t@),
            None => operand_text(*v) is None,
        },
{
    match v {
        JsonValue::Str(s) => Some(lowercase(s.as_str())),
        JsonValue::Number(t) => Some(t.clone()),
        JsonValue::Bool(b) => Some(if *b { "true".to_owned() } else { "false".to_owned() }),
        _ => None,
    }
}

/// What a string operator answers on the value `found` at the field's
/// path: false when there is none or it is not a string, number or
/// boolean; otherwise the operator applied to its text and the lowercased
/// operand (the regular expression is used as given).
pub open spec fn string_op_holds(found: Option<JsonValue>, op: StringOp, value: Seq<char>) -> Result<bool, Seq<char>> {
    match found {
        None => Ok(false),
        Some(v) => match operand_text(v) {
            None => Ok(false),
            Some(t) => match op {
                StringOp::Contains => Ok(has_substring(t, lowercase_of(value))),
                StringOp::StartsWith => Ok(starts_with(t, lowercase_of(value))),
                StringOp::EndsWith => Ok(ends_with(t, lowercase_of(value))),
                StringOp::Regex => match regex_compile_error(value) {
                    Some(e) => Err("Invalid regex: "@ + e),
                    None => Ok(regex_finds(value, t)),
                },
            },
        },
    }
}

/// Evaluates a string operator on the field at `field`; a regular
/// expression that does not compile is an `InvalidFilter` error.
pub fn evaluate_string_op(field: &str, op: StringOp, value: &str, data: &JsonValue) -> (r: Result<bool, GhidraError>)
    requires
        !path_breaks(*data, path_segments(field@)),
    ensures
        match string_op_holds(follow(*data, path_segments(field@)), op, value@) {
            Ok(b) => r == Ok::<bool, GhidraError>(b),
            Err(m) => r matches Err(GhidraError::InvalidFilter(e)) && e@ == m,
        },
{
    let found = match get_field_value(field, data) {
        Some(v) => v,
        None => {
            return Ok(false);
        },
    };
    let text = match operand_of(found) {
        Some(t) => t,
        None => {
            return Ok(false);
        },
    };
    let lowered = lowercase(value);
    match op {
        StringOp::Contains => Ok(crate::ilspy::commands::substring_of(text.as_str(), lowered.as_str())),
        StringOp::StartsWith => Ok(has_prefix(text.as_str(), lowered.as_str())),
        StringOp::EndsWith => Ok(has_suffix(text.as_str(), lowered.as_str())),
        StringOp::Regex => match regex_match(value, text.as_str()) {
            Ok(b) => Ok(b),
            Err(e) => {
                let mut m = "Invalid regex: ".to_owned();
                m.append(e.as_str());
                Err(GhidraError::InvalidFilter(m))
            },
        },
    }
}

/// What the existence checks mean: `EXISTS` holds exactly of a present
/// value; `NULL` of an absent value or `null`; `EMPTY` of an absent
/// value, `null`, and a string, array or object with nothing in it, and
/// of no number or boolean. Whatever is `NULL` is `EMPTY`.
pub proof fn lemma_existence_checks(v: JsonValue)
    ensures
        exists_holds(Some(v), ExistenceCheck::Exists),
        !exists_holds(None, ExistenceCheck::Exists),
        exists_holds(None, ExistenceCheck::Null),
        exists_holds(Some(v), ExistenceCheck::Null) <==> v is Null,
        exists_holds(None, ExistenceCheck::Empty),
        v is Null ==> exists_holds(Some(v), ExistenceCheck::Empty),
        v matches JsonValue::Object(o) ==> (exists_holds(Some(v), ExistenceCheck::Empty) <==> o.members@.len()
            == 0),
        v matches JsonValue::Array(a) ==> (exists_holds(Some(v), ExistenceCheck::Empty) <==> a@.len() == 0),
        v matches JsonValue::Str(s) ==> (exists_holds(Some(v), ExistenceCheck::Empty) <==> s@.len() == 0),
        (v is Bool || v is Number) ==> !exists_holds(Some(v), ExistenceCheck::Empty),
        exists_holds(Some(v), ExistenceCheck::Null) ==> exists_holds(Some(v), ExistenceCheck::Empty),
{
}

} // verus!
