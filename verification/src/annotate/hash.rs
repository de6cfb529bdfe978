//! PCode-based function fingerprints.
//!
//! A function's raw PCode is rewritten into a canonical text that keeps
//! what survives recompilation and relinking (opcodes, register names,
//! access sizes, small constants, which temporaries alias) and drops
//! what does not (RAM addresses, stack offsets, large constants, the
//! names of compiler temporaries). The fingerprint is the MD5 digest of
//! that text, read as a big-endian 128-bit number; its 32-digit
//! lowercase hexadecimal form is the key of the annotation store.

use vstd::prelude::*;
use vstd::hash_map::StringHashMap;
use vstd::utf8::encode_utf8;
use crate::digest::{md5_digest, md5_of, to_hex, hex_text, hex_bytes, hex_digit};
use crate::text::{bytes_as_chars, decimal, signed_decimal, str_eq, u64_decimal, i64_decimal, lemma_decimal_injective};

verus! {

/// Constants up to this value are kept (shift amounts, loop bounds,
/// magic numbers); larger ones are almost always linked addresses and
/// all hash alike.
pub const SMALL_CONSTANT_MAX: u64 = 0x1000;

/// A varnode of a PCode operation, as the fields the fingerprint reads.
///
/// Each field is the value found under its key when it has the expected
/// JSON type (`type`, `register`, `space` and `offset` strings, `size`
/// an unsigned integer), and `None` otherwise.
#[derive(Clone, Debug)]
pub struct Varnode {
    /// `register`, `stack`, `unique`, `constant`, `ram`, or another kind.
    pub kind: Option<String>,
    pub size: Option<u64>,
    pub register: Option<String>,
    pub space: Option<String>,
    /// Hexadecimal text such as `0x401000`.
    pub offset: Option<String>,
}

/// A PCode operation. `output` is `None` when the key is missing or
/// null; `opcode` and `inputs` are `None` when missing or not an integer
/// and an array.
#[derive(Clone, Debug)]
pub struct PcodeOp {
    pub opcode: Option<i64>,
    pub output: Option<Varnode>,
    pub inputs: Option<Vec<Varnode>>,
}

/// A function's PCode listing: the `pcode` array of the bridge's reply,
/// `None` when it has none.
#[derive(Clone, Debug)]
pub struct PcodeFunction {
    pub pcode: Option<Vec<PcodeOp>>,
}

/// Why a listing cannot be fingerprinted.
#[derive(Clone, Copy, Debug, PartialEq, Eq, Structural)]
pub enum HashError {
    /// The reply has no `pcode` array.
    MissingPcodeArray,
    /// An operation has no integer opcode.
    MissingOpcode,
    /// An operation has no inputs array.
    MissingInputs,
    /// A varnode has no `type` string.
    MissingVarnodeType,
}

impl HashError {
    /// The message shown for this error.
    pub fn message(&self) -> (r: String)
        ensures
            r@ == match *self {
                HashError::MissingPcodeArray => "pcode_response is missing the `pcode` array"@,
                HashError::MissingOpcode => "pcode op missing integer opcode"@,
                HashError::MissingInputs => "pcode op missing inputs array"@,
                HashError::MissingVarnodeType => "varnode missing type"@,
            },
    {
        match self {
            HashError::MissingPcodeArray => "pcode_response is missing the `pcode` array".to_owned(),
            HashError::MissingOpcode => "pcode op missing integer opcode".to_owned(),
            HashError::MissingInputs => "pcode op missing inputs array".to_owned(),
            HashError::MissingVarnodeType => "varnode missing type".to_owned(),
        }
    }
}

/// The IDs given to unique-space temporaries so far: each identity gets
/// the next number on first sight.
pub struct InternState {
    pub ids: Map<Seq<char>, u32>,
    pub next: nat,
}

/// The text of an optional string, or `default`.
pub open spec fn text_or(o: Option<String>, default: Seq<char>) -> Seq<char> {
    match o {
        Some(s) => s@,
        None => default,
    }
}

/// The access size, 0 when absent.
pub open spec fn size_of(vn: Varnode) -> nat {
    match vn.size {
        Some(s) => s as nat,
        None => 0,
    }
}

/// `space@offset`, with `?` for a missing part: what makes two
/// references denote the same temporary.
pub open spec fn identity(vn: Varnode) -> Seq<char> {
    text_or(vn.space, "?"@) + "@"@ + text_or(vn.offset, "?"@)
}

/// A hexadecimal digit byte, in either case.
pub open spec fn is_hex_byte(b: u8) -> bool {
    (0x30 <= b <= 0x39) || (0x61 <= b <= 0x66) || (0x41 <= b <= 0x46)
}

/// The value of a hexadecimal digit byte.
pub open spec fn hex_value(b: u8) -> nat {
    if 0x30 <= b <= 0x39 {
        (b - 0x30) as nat
    } else if 0x61 <= b <= 0x66 {
        (b - 0x61 + 10) as nat
    } else {
        (b - 0x41 + 10) as nat
    }
}

/// The number that the digits `d` spell in base 16.
pub open spec fn hex_number(d: Seq<u8>) -> nat
    decreases d.len(),
{
    if d.len() == 0 {
        0
    } else {
        hex_number(d.drop_last()) * 16 + hex_value(d.last())
    }
}

/// `d` is a non-empty run of hexadecimal digits.
pub open spec fn all_hex(d: Seq<u8>) -> bool {
    forall|i: int| 0 <= i < d.len() ==> is_hex_byte(#[trigger] d[i])
}

/// The value of a run of hexadecimal digits, when it is one and fits in
/// 64 bits.
pub open spec fn hex_digits_u64(d: Seq<u8>) -> Option<u64> {
    if d.len() > 0 && all_hex(d) && hex_number(d) <= u64::MAX {
        Some(hex_number(d) as u64)
    } else {
        None
    }
}

/// `u64::from_str_radix(s, 16)` on the bytes of `s`: an optional `+`
/// and then one or more hexadecimal digits whose value fits.
pub open spec fn parse_hex_u64(s: Seq<u8>) -> Option<u64> {
    if s.len() > 0 && s[0] == 0x2b {
        hex_digits_u64(s.drop_first())
    } else {
        hex_digits_u64(s)
    }
}

/// `s` without one leading `0x`.
pub open spec fn strip_0x(s: Seq<u8>) -> Seq<u8> {
    if s.len() >= 2 && s[0] == 0x30 && s[1] == 0x78 {
        s.skip(2)
    } else {
        s
    }
}

/// The value of a constant varnode: its hexadecimal offset, 0 when it
/// is missing or malformed.
pub open spec fn constant_value(vn: Varnode) -> nat {
    match vn.offset {
        Some(o) => match parse_hex_u64(strip_0x(encode_utf8(o@))) {
            Some(v) => v as nat,
            None => 0,
        },
        None => 0,
    }
}

/// The canonical text of one varnode, and the interning state after it.
#[verifier::opaque]
pub open spec fn varnode_step(vn: Varnode, st: InternState) -> Result<(Seq<char>, InternState), HashError> {
    match vn.kind {
        None => Err(HashError::MissingVarnodeType),
        Some(k) => {
            let size = decimal(size_of(vn));
            if k@ == "register"@ {
                Ok(("R:"@ + text_or(vn.register, "?"@) + ":"@ + size, st))
            } else if k@ == "stack"@ {
                Ok(("S:"@ + size, st))
            } else if k@ == "unique"@ {
                let key = identity(vn);
                if st.ids.contains_key(key) {
                    Ok(("U:"@ + decimal(st.ids[key] as nat) + ":"@ + size, st))
                } else {
                    Ok((
                        "U:"@ + decimal(st.next) + ":"@ + size,
                        InternState { ids: st.ids.insert(key, st.next as u32), next: st.next + 1 },
                    ))
                }
            } else if k@ == "constant"@ {
                let v = constant_value(vn);
                if v <= SMALL_CONSTANT_MAX {
                    Ok(("C:"@ + decimal(v) + ":"@ + size, st))
                } else {
                    Ok(("C:LARGE:"@ + size, st))
                }
            } else if k@ == "ram"@ {
                Ok(("M:"@ + size, st))
            } else {
                Ok(("?"@ + k@ + ":"@ + size, st))
            }
        },
    }
}

/// The canonical text of a list of input varnodes, each followed by a
/// comma.
pub open spec fn inputs_step(vns: Seq<Varnode>, st: InternState) -> Result<(Seq<char>, InternState), HashError>
    decreases vns.len(),
{
    if vns.len() == 0 {
        Ok((Seq::empty(), st))
    } else {
        match inputs_step(vns.drop_last(), st) {
            Err(e) => Err(e),
            Ok((t, s1)) => match varnode_step(vns.last(), s1) {
                Err(e) => Err(e),
                Ok((t2, s2)) => Ok((t + t2 + ","@, s2)),
            },
        }
    }
}

/// The canonical text of the output part of an operation: `.` for no
/// output, then `;`.
pub open spec fn output_step(out: Option<Varnode>, st: InternState) -> Result<(Seq<char>, InternState), HashError> {
    match out {
        None => Ok((".;"@, st)),
        Some(vn) => match varnode_step(vn, st) {
            Err(e) => Err(e),
            Ok((t, s1)) => Ok((t + ";"@, s1)),
        },
    }
}

/// The canonical text of one operation: `O<opcode>;`, the output, the
/// inputs, and `|`.
pub open spec fn op_step(op: PcodeOp, st: InternState) -> Result<(Seq<char>, InternState), HashError> {
    match op.opcode {
        None => Err(HashError::MissingOpcode),
        Some(c) => match output_step(op.output, st) {
            Err(e) => Err(e),
            Ok((ot, s1)) => match op.inputs {
                None => Err(HashError::MissingInputs),
                Some(ins) => match inputs_step(ins@, s1) {
                    Err(e) => Err(e),
                    Ok((it, s2)) => Ok(("O"@ + signed_decimal(c as int) + ";"@ + ot + it + "|"@, s2)),
                },
            },
        },
    }
}

/// The canonical text of a list of operations.
pub open spec fn ops_step(ops: Seq<PcodeOp>, st: InternState) -> Result<(Seq<char>, InternState), HashError>
    decreases ops.len(),
{
    if ops.len() == 0 {
        Ok((Seq::empty(), st))
    } else {
        match ops_step(ops.drop_last(), st) {
            Err(e) => Err(e),
            Ok((t, s1)) => match op_step(ops.last(), s1) {
                Err(e) => Err(e),
                Ok((t2, s2)) => Ok((t + t2, s2)),
            },
        }
    }
}

/// No temporary seen yet.
pub open spec fn fresh_state() -> InternState {
    InternState { ids: Map::empty(), next: 0 }
}

/// The canonical text of a listing.
pub open spec fn canonical_text(f: PcodeFunction) -> Result<Seq<char>, HashError> {
    match f.pcode {
        None => Err(HashError::MissingPcodeArray),
        Some(ops) => match ops_step(ops@, fresh_state()) {
            Err(e) => Err(e),
            Ok((t, _)) => Ok(t),
        },
    }
}

/// How many varnodes an operation references.
pub open spec fn op_varnodes(op: PcodeOp) -> nat {
    (if op.output is Some { 1nat } else { 0nat }) + match op.inputs {
        Some(v) => v@.len(),
        None => 0,
    }
}

/// How many varnodes a list of operations references.
pub open spec fn ops_varnodes(ops: Seq<PcodeOp>) -> nat
    decreases ops.len(),
{
    if ops.len() == 0 {
        0
    } else {
        ops_varnodes(ops.drop_last()) + op_varnodes(ops.last())
    }
}

/// How many varnodes a listing references.
pub open spec fn listing_varnodes(f: PcodeFunction) -> nat {
    match f.pcode {
        Some(ops) => ops_varnodes(ops@),
        None => 0,
    }
}


proof fn lemma_hex_number_prefix(d: Seq<u8>, j: int)
    requires
        0 <= j <= d.len(),
    ensures
        hex_number(d.take(j)) <= hex_number(d),
    decreases d.len() - j,
{
    if j < d.len() {
        lemma_hex_number_prefix(d, j + 1);
        assert(d.take(j + 1).drop_last() =~= d.take(j));
    } else {
        assert(d.take(j) =~= d);
    }
}

/// The value of a run of hexadecimal digits (`None` when empty, when a
/// byte is no digit, or when the value does not fit in 64 bits).
fn hex_digits_value(d: &[u8]) -> (r: Option<u64>)
    ensures
        r == hex_digits_u64(d@),
{
    if d.len() == 0 {
        return None;
    }
    let mut v: u64 = 0;
    let mut i: usize = 0;
    assert(d@.take(0) =~= Seq::<u8>::empty());
    while i < d.len()
        invariant
            i <= d.len(),
            d.len() > 0,
            v as nat == hex_number(d@.take(i as int)),
            forall|k: int| 0 <= k < i ==> is_hex_byte(#[trigger] d@[k]),
        decreases d.len() - i,
    {
        let b = d[i];
        let digit: u64 = if 0x30 <= b && b <= 0x39 {
            (b - 0x30) as u64
        } else if 0x61 <= b && b <= 0x66 {
            (b - 0x61 + 10) as u64
        } else if 0x41 <= b && b <= 0x46 {
            (b - 0x41 + 10) as u64
        } else {
            assert(!all_hex(d@));
            return None;
        };
        assert(d@.take(i + 1).drop_last() =~= d@.take(i as int));
        let next_v = match v.checked_mul(16) {
            Some(m) => m.checked_add(digit),
            None => None,
        };
        match next_v {
            Some(n) => {
                v = n;
            },
            None => {
                proof {
                    if all_hex(d@) {
                        lemma_hex_number_prefix(d@, i + 1);
                    }
                }
                return None;
            },
        }
        i += 1;
    }
    assert(d@.take(d.len() as int) =~= d@);
    Some(v)
}

/// `u64::from_str_radix(offset, 16)` after dropping one leading `0x`, or
/// 0 when that fails.
fn parse_hex_offset(offset: &str) -> (r: u64)
    ensures
        r as nat == match parse_hex_u64(strip_0x(encode_utf8(offset@))) {
            Some(v) => v as nat,
            None => 0,
        },
{
    let bytes = offset.as_bytes();
    let stripped: &[u8] = if bytes.len() >= 2 && bytes[0] == 0x30 && bytes[1] == 0x78 {
        let (_, rest) = bytes.split_at(2);
        assert(rest@ =~= bytes@.skip(2));
        rest
    } else {
        bytes
    };
    let parsed = if stripped.len() > 0 && stripped[0] == 0x2b {
        let (_, digits) = stripped.split_at(1);
        assert(digits@ =~= stripped@.drop_first());
        hex_digits_value(digits)
    } else {
        hex_digits_value(stripped)
    };
    match parsed {
        Some(v) => v,
        None => 0,
    }
}

/// The text of an optional string, or `default`.
fn text_or_default(o: &Option<String>, default: &str) -> (r: String)
    ensures
        r@ == text_or(*o, default@),
{
    match o {
        Some(s) => s.clone(),
        None => default.to_owned(),
    }
}

proof fn lemma_varnode_step_next(vn: Varnode, st: InternState)
    ensures
        varnode_step(vn, st) matches Ok((_, s1)) ==> s1.next <= st.next + 1,
{
    reveal(varnode_step);
}

/// Appends the canonical text of a varnode, interning unique-space
/// temporaries.
#[verifier::rlimit(50)]
#[verifier::spinoff_prover]
fn normalize_varnode(vn: &Varnode, ids: &mut StringHashMap<u32>, next: &mut u32, out: &mut String) -> (r: Result<(), HashError>)
    requires
        *old(next) < u32::MAX,
    ensures
        match varnode_step(*vn, InternState { ids: old(ids)@, next: *old(next) as nat }) {
            Ok((t, s1)) => {
                &&& r is Ok
                &&& final(out)@ == old(out)@ + t
                &&& final(ids)@ == s1.ids
                &&& *final(next) as nat == s1.next
            },
            Err(e) => r == Err::<(), HashError>(e),
        },
{
    reveal(varnode_step);
    let kind = match &vn.kind {
        Some(k) => k,
        None => {
            return Err(HashError::MissingVarnodeType);
        },
    };
    let size_value: u64 = match vn.size {
        Some(s) => s,
        None => 0,
    };
    let size = u64_decimal(size_value);
    if str_eq(kind.as_str(), "register") {
        let name = text_or_default(&vn.register, "?");
        out.append("R:");
        out.append(name.as_str());
        out.append(":");
        out.append(size.as_str());
    } else if str_eq(kind.as_str(), "stack") {
        out.append("S:");
        out.append(size.as_str());
    } else if str_eq(kind.as_str(), "unique") {
        let mut key = text_or_default(&vn.space, "?");
        key.append("@");
        let offset = text_or_default(&vn.offset, "?");
        key.append(offset.as_str());
        let id: u32 = match ids.get(key.as_str()) {
            Some(existing) => *existing,
            None => {
                let fresh = *next;
                ids.insert(key, fresh);
                *next = fresh + 1;
                fresh
            },
        };
        let id_text = u64_decimal(id as u64);
        out.append("U:");
        out.append(id_text.as_str());
        out.append(":");
        out.append(size.as_str());
    } else if str_eq(kind.as_str(), "constant") {
        let value = match &vn.offset {
            Some(o) => parse_hex_offset(o.as_str()),
            None => 0,
        };
        if value <= SMALL_CONSTANT_MAX {
            let value_text = u64_decimal(value);
            out.append("C:");
            out.append(value_text.as_str());
            out.append(":");
            out.append(size.as_str());
        } else {
            out.append("C:LARGE:");
            out.append(size.as_str());
        }
    } else if str_eq(kind.as_str(), "ram") {
        out.append("M:");
        out.append(size.as_str());
    } else {
        out.append("?");
        out.append(kind.as_str());
        out.append(":");
        out.append(size.as_str());
    }
    Ok(())
}

proof fn lemma_inputs_step_next(vns: Seq<Varnode>, st: InternState)
    ensures
        inputs_step(vns, st) matches Ok((_, s1)) ==> s1.next <= st.next + vns.len(),
    decreases vns.len(),
{
    if vns.len() > 0 {
        lemma_inputs_step_next(vns.drop_last(), st);
        if let Ok((_, s1)) = inputs_step(vns.drop_last(), st) {
            lemma_varnode_step_next(vns.last(), s1);
        }
    }
}

proof fn lemma_inputs_err_persists(vns: Seq<Varnode>, st: InternState, k: int, e: HashError)
    requires
        0 <= k <= vns.len(),
        inputs_step(vns.take(k), st) == Err::<(Seq<char>, InternState), HashError>(e),
    ensures
        inputs_step(vns, st) == Err::<(Seq<char>, InternState), HashError>(e),
    decreases vns.len() - k,
{
    if k < vns.len() {
        assert(vns.take(k + 1).drop_last() =~= vns.take(k));
        lemma_inputs_err_persists(vns, st, k + 1, e);
    } else {
        assert(vns.take(k) =~= vns);
    }
}

/// Appends the canonical text of a list of input varnodes.
fn normalize_inputs(vns: &Vec<Varnode>, ids: &mut StringHashMap<u32>, next: &mut u32, out: &mut String) -> (r: Result<(), HashError>)
    requires
        *old(next) as nat + vns@.len() < u32::MAX,
    ensures
        match inputs_step(vns@, InternState { ids: old(ids)@, next: *old(next) as nat }) {
            Ok((t, s1)) => {
                &&& r is Ok
                &&& final(out)@ == old(out)@ + t
                &&& final(ids)@ == s1.ids
                &&& *final(next) as nat == s1.next
            },
            Err(e) => r == Err::<(), HashError>(e),
        },
{
    let ghost st0 = InternState { ids: ids@, next: *next as nat };
    let ghost out0 = out@;
    let mut i: usize = 0;
    assert(vns@.take(0) =~= Seq::<Varnode>::empty());
    assert(out@.skip(out0.len() as int) =~= Seq::<char>::empty());
    while i < vns.len()
        invariant
            i <= vns.len(),
            st0 == (InternState { ids: old(ids)@, next: *old(next) as nat }),
            out0 == old(out)@,
            st0.next + vns@.len() < u32::MAX,
            inputs_step(vns@.take(i as int), st0) == Ok::<(Seq<char>, InternState), HashError>(
                (out@.skip(out0.len() as int), InternState { ids: ids@, next: *next as nat }),
            ),
            out@.len() >= out0.len(),
            out@.take(out0.len() as int) == out0,
            *next as nat <= st0.next + i,
        decreases vns.len() - i,
    {
        let ghost before = out@;
        let ghost acc = out@.skip(out0.len() as int);
        let ghost st_i = InternState { ids: ids@, next: *next as nat };
        assert(vns@.take(i + 1).drop_last() =~= vns@.take(i as int));
        assert(vns@.take(i + 1).last() == vns@[i as int]);
        proof {
            lemma_varnode_step_next(vns@[i as int], st_i);
        }
        match normalize_varnode(&vns[i], ids, next, out) {
            Ok(()) => {},
            Err(e) => {
                assert(varnode_step(vns@[i as int], st_i) == Err::<(Seq<char>, InternState), HashError>(e));
                assert(inputs_step(vns@.take(i + 1), st0) == Err::<(Seq<char>, InternState), HashError>(e));
                proof {
                    lemma_inputs_err_persists(vns@, st0, i + 1, e);
                }
                return Err(e);
            },
        }
        let ghost mid = out@;
        proof {
            let (t, s1) = varnode_step(vns@[i as int], st_i)->Ok_0;
            assert(mid =~= before + t);
            assert(mid.skip(before.len() as int) =~= t);
        }
        assert(varnode_step(vns@[i as int], st_i) == Ok::<(Seq<char>, InternState), HashError>(
            (mid.skip(before.len() as int), InternState { ids: ids@, next: *next as nat }),
        ));
        out.append(",");
        assert(out@.skip(out0.len() as int) =~= acc + mid.skip(before.len() as int) + ","@);
        assert(out@.take(out0.len() as int) =~= out0);
        i += 1;
    }
    assert(vns@.take(vns.len() as int) =~= vns@);
    assert(out@ =~= out0 + out@.skip(out0.len() as int));
    Ok(())
}

proof fn lemma_op_step_next(op: PcodeOp, st: InternState)
    ensures
        op_step(op, st) matches Ok((_, s1)) ==> s1.next <= st.next + op_varnodes(op),
{
    if let Some(vn) = op.output {
        lemma_varnode_step_next(vn, st);
    }
    if let Ok((_, s1)) = output_step(op.output, st) {
        if let Some(ins) = op.inputs {
            lemma_inputs_step_next(ins@, s1);
        }
    }
}

/// Appends the canonical text of one operation.
fn normalize_op(op: &PcodeOp, ids: &mut StringHashMap<u32>, next: &mut u32, out: &mut String) -> (r: Result<(), HashError>)
    requires
        *old(next) as nat + op_varnodes(*op) < u32::MAX,
    ensures
        match op_step(*op, InternState { ids: old(ids)@, next: *old(next) as nat }) {
            Ok((t, s1)) => {
                &&& r is Ok
                &&& final(out)@ == old(out)@ + t
                &&& final(ids)@ == s1.ids
                &&& *final(next) as nat == s1.next
            },
            Err(e) => r == Err::<(), HashError>(e),
        },
{
    let ghost st0 = InternState { ids: ids@, next: *next as nat };
    let ghost out0 = out@;
    let code = match op.opcode {
        Some(c) => c,
        None => {
            return Err(HashError::MissingOpcode);
        },
    };
    let code_text = i64_decimal(code);
    out.append("O");
    out.append(code_text.as_str());
    out.append(";");
    let ghost head = out@.skip(out0.len() as int);
    assert(head =~= "O"@ + signed_decimal(code as int) + ";"@);
    let ghost after_head = out@;
    match &op.output {
        None => {
            out.append(".;");
        },
        Some(vn) => {
            proof {
                lemma_varnode_step_next(*vn, st0);
            }
            match normalize_varnode(vn, ids, next, out) {
                Ok(()) => {},
                Err(e) => {
                    return Err(e);
                },
            }
            out.append(";");
        },
    }
    let ghost s1 = InternState { ids: ids@, next: *next as nat };
    let ghost out_text = out@.skip(after_head.len() as int);
    proof {
        let (ot, st1) = output_step(op.output, st0)->Ok_0;
        assert(out@ =~= after_head + ot);
        assert(out_text =~= ot);
        assert(st1 == s1);
    }
    let ins = match &op.inputs {
        Some(v) => v,
        None => {
            return Err(HashError::MissingInputs);
        },
    };
    let ghost after_out = out@;
    match normalize_inputs(ins, ids, next, out) {
        Ok(()) => {},
        Err(e) => {
            return Err(e);
        },
    }
    let ghost in_text = out@.skip(after_out.len() as int);
    proof {
        let (it, st2) = inputs_step(ins@, s1)->Ok_0;
        assert(out@ =~= after_out + it);
        assert(in_text =~= it);
    }
    out.append("|");
    assert(out@ =~= out0 + (head + out_text + in_text + "|"@));
    Ok(())
}

proof fn lemma_ops_err_persists(ops: Seq<PcodeOp>, st: InternState, k: int, e: HashError)
    requires
        0 <= k <= ops.len(),
        ops_step(ops.take(k), st) == Err::<(Seq<char>, InternState), HashError>(e),
    ensures
        ops_step(ops, st) == Err::<(Seq<char>, InternState), HashError>(e),
    decreases ops.len() - k,
{
    if k < ops.len() {
        assert(ops.take(k + 1).drop_last() =~= ops.take(k));
        lemma_ops_err_persists(ops, st, k + 1, e);
    } else {
        assert(ops.take(k) =~= ops);
    }
}

proof fn lemma_ops_varnodes_prefix(ops: Seq<PcodeOp>, k: int)
    requires
        0 <= k <= ops.len(),
    ensures
        ops_varnodes(ops.take(k)) <= ops_varnodes(ops),
        k < ops.len() ==> ops_varnodes(ops.take(k)) + op_varnodes(ops[k]) <= ops_varnodes(ops),
    decreases ops.len() - k,
{
    if k < ops.len() {
        assert(ops.take(k + 1).drop_last() =~= ops.take(k));
        lemma_ops_varnodes_prefix(ops, k + 1);
    } else {
        assert(ops.take(k) =~= ops);
    }
}

/// The canonical text of a listing. At most `u32::MAX - 1` varnodes are
/// referenced, so that temporary IDs fit their 32-bit counter.
pub fn canonicalize(f: &PcodeFunction) -> (r: Result<String, HashError>)
    requires
        listing_varnodes(*f) < u32::MAX,
    ensures
        match canonical_text(*f) {
            Ok(t) => r matches Ok(s) && s@ == t,
            Err(e) => r == Err::<String, HashError>(e),
        },
{
    let ops = match &f.pcode {
        Some(ops) => ops,
        None => {
            return Err(HashError::MissingPcodeArray);
        },
    };
    let mut ids: StringHashMap<u32> = StringHashMap::new();
    let mut next: u32 = 0;
    let mut out = String::new();
    let ghost st0 = fresh_state();
    let mut i: usize = 0;
    assert(ops@.take(0) =~= Seq::<PcodeOp>::empty());
    assert(ids@ == st0.ids);
    while i < ops.len()
        invariant
            i <= ops.len(),
            st0 == fresh_state(),
            f.pcode matches Some(v) && v@ == ops@,
            ops_varnodes(ops@) < u32::MAX,
            ops_step(ops@.take(i as int), st0) == Ok::<(Seq<char>, InternState), HashError>(
                (out@, InternState { ids: ids@, next: next as nat }),
            ),
            next as nat <= ops_varnodes(ops@.take(i as int)),
        decreases ops.len() - i,
    {
        let ghost before = out@;
        let ghost st_i = InternState { ids: ids@, next: next as nat };
        assert(ops@.take(i + 1).drop_last() =~= ops@.take(i as int));
        assert(ops@.take(i + 1).last() == ops@[i as int]);
        proof {
            lemma_ops_varnodes_prefix(ops@, i as int);
            lemma_op_step_next(ops@[i as int], st_i);
        }
        match normalize_op(&ops[i], &mut ids, &mut next, &mut out) {
            Ok(()) => {},
            Err(e) => {
                assert(op_step(ops@[i as int], st_i) == Err::<(Seq<char>, InternState), HashError>(e));
                assert(ops_step(ops@.take(i + 1), st0) == Err::<(Seq<char>, InternState), HashError>(e));
                proof {
                    lemma_ops_err_persists(ops@, st0, i + 1, e);
                }
                return Err(e);
            },
        }
        proof {
            let (t, s1) = op_step(ops@[i as int], st_i)->Ok_0;
            assert(out@ =~= before + t);
        }
        i += 1;
    }
    assert(ops@.take(ops.len() as int) =~= ops@);
    Ok(out)
}

/// The number that `b` spells in base 256, most significant byte first.
pub open spec fn be_value(b: Seq<u8>) -> nat
    decreases b.len(),
{
    if b.len() == 0 {
        0
    } else {
        be_value(b.drop_last()) * 256 + b.last() as nat
    }
}

/// `256` to the power `n`.
pub open spec fn byte_power(n: nat) -> nat
    decreases n,
{
    if n == 0 {
        1
    } else {
        256 * byte_power((n - 1) as nat)
    }
}

/// The `width` lowest hexadecimal digits of `n`, most significant
/// first: the `{:0width$x}` rendering of a number below `16^width`.
pub open spec fn padded_hex(n: nat, width: nat) -> Seq<char>
    decreases width,
{
    if width == 0 {
        Seq::empty()
    } else {
        padded_hex(n / 16, (width - 1) as nat).push(hex_digit((n % 16) as int) as char)
    }
}

/// The fingerprint of a listing: its canonical text's MD5 digest as a
/// big-endian number.
pub open spec fn fingerprint_of(t: Seq<char>) -> nat {
    be_value(md5_of(encode_utf8(t)))
}

proof fn lemma_be_value_bound(b: Seq<u8>)
    ensures
        be_value(b) < byte_power(b.len()),
    decreases b.len(),
{
    if b.len() > 0 {
        lemma_be_value_bound(b.drop_last());
        let x = be_value(b.drop_last());
        let p = byte_power((b.len() - 1) as nat);
        let l = b.last() as nat;
        assert(x * 256 + l < 256 * p) by (nonlinear_arith)
            requires
                x < p,
                l < 256,
        ;
    }
}

proof fn lemma_byte_power_16()
    ensures
        byte_power(16) == 0x1_0000_0000_0000_0000_0000_0000_0000_0000,
{
    reveal_with_fuel(byte_power, 17);
}

proof fn lemma_padded_hex_step(x: nat, l: nat, k: nat)
    requires
        l < 256,
    ensures
        padded_hex(x * 256 + l, k + 2) == padded_hex(x, k).push(
            hex_digit((l / 16) as int) as char,
        ).push(hex_digit((l % 16) as int) as char),
{
    let n = x * 256 + l;
    assert(n / 16 == x * 16 + l / 16 && n % 16 == l % 16) by (nonlinear_arith)
        requires
            n == x * 256 + l,
            l < 256,
    ;
    let m = x * 16 + l / 16;
    assert(m / 16 == x && m % 16 == l / 16) by (nonlinear_arith)
        requires
            m == x * 16 + l / 16,
            l < 256,
    ;
    assert(padded_hex(n, k + 2) == padded_hex(m, k + 1).push(hex_digit((n % 16) as int) as char));
    assert(padded_hex(m, k + 1) == padded_hex(x, k).push(hex_digit((m % 16) as int) as char));
}

proof fn lemma_hex_text_padded(b: Seq<u8>)
    ensures
        padded_hex(be_value(b), 2 * b.len()) == hex_text(b),
    decreases b.len(),
{
    if b.len() == 0 {
        assert(hex_text(b) =~= Seq::<char>::empty());
    } else {
        let rest = b.drop_last();
        let l = b.last();
        lemma_hex_text_padded(rest);
        lemma_padded_hex_step(be_value(rest), l as nat, 2 * rest.len());
        assert(hex_text(b) =~= hex_text(rest).push(hex_digit(l as int / 16) as char).push(
            hex_digit(l as int % 16) as char,
        ));
    }
}

/// `b` read as a big-endian number.
fn be_u128(b: &[u8; 16]) -> (r: u128)
    ensures
        r as nat == be_value(b@),
{
    let mut v: u128 = 0;
    let mut i: usize = 0;
    assert(b@.take(0) =~= Seq::<u8>::empty());
    while i < 16
        invariant
            i <= 16,
            b@.len() == 16,
            v as nat == be_value(b@.take(i as int)),
        decreases 16 - i,
    {
        assert(b@.take(i + 1).drop_last() =~= b@.take(i as int));
        proof {
            lemma_be_value_bound(b@.take(i + 1));
            lemma_byte_power_16();
            lemma_byte_power_mono((i + 1) as nat, 16);
        }
        v = v * 256 + b[i] as u128;
        i += 1;
    }
    assert(b@.take(16) =~= b@);
    v
}

proof fn lemma_byte_power_mono(a: nat, b: nat)
    requires
        a <= b,
    ensures
        byte_power(a) <= byte_power(b),
    decreases b,
{
    if a < b {
        lemma_byte_power_mono(a, (b - 1) as nat);
    }
}

/// The 128-bit fingerprint of a listing.
pub fn fingerprint(f: &PcodeFunction) -> (r: Result<u128, HashError>)
    requires
        listing_varnodes(*f) < u32::MAX,
    ensures
        match canonical_text(*f) {
            Ok(t) => r matches Ok(v) && v as nat == fingerprint_of(t),
            Err(e) => r == Err::<u128, HashError>(e),
        },
{
    let canonical = canonicalize(f)?;
    let digest = md5_digest(canonical.as_str().as_bytes());
    Ok(be_u128(&digest))
}

/// The fingerprint as the 32 lowercase hexadecimal digits that key the
/// annotation store.
pub fn fingerprint_hex(f: &PcodeFunction) -> (r: Result<String, HashError>)
    requires
        listing_varnodes(*f) < u32::MAX,
    ensures
        match canonical_text(*f) {
            Ok(t) => r matches Ok(h) && h@ == padded_hex(fingerprint_of(t), 32),
            Err(e) => r == Err::<String, HashError>(e),
        },
{
    let canonical = canonicalize(f)?;
    let digest = md5_digest(canonical.as_str().as_bytes());
    proof {
        lemma_hex_text_padded(digest@);
    }
    Ok(to_hex(&digest))
}

/// Two varnodes that the fingerprint cannot tell apart: the same kind,
/// size and register, the same identity if they are temporaries, and
/// equal small values or two large values if they are constants. RAM and
/// stack offsets, and the space and offset of other kinds, may differ.
pub open spec fn same_shape(a: Varnode, b: Varnode) -> bool {
    &&& a.kind == b.kind
    &&& size_of(a) == size_of(b)
    &&& text_or(a.register, "?"@) == text_or(b.register, "?"@)
    &&& (a.kind matches Some(k) && k@ == "unique"@) ==> identity(a) == identity(b)
    &&& (a.kind matches Some(k) && k@ == "constant"@) ==> (constant_value(a) == constant_value(b) || (
    constant_value(a) > SMALL_CONSTANT_MAX && constant_value(b) > SMALL_CONSTANT_MAX))
}

/// Two varnode lists alike element by element.
pub open spec fn same_shape_list(a: Seq<Varnode>, b: Seq<Varnode>) -> bool {
    a.len() == b.len() && forall|i: int| 0 <= i < a.len() ==> same_shape(#[trigger] a[i], b[i])
}

/// Two operations alike: the same opcode, alike outputs and inputs.
pub open spec fn same_shape_op(a: PcodeOp, b: PcodeOp) -> bool {
    &&& a.opcode == b.opcode
    &&& match (a.output, b.output) {
        (None, None) => true,
        (Some(x), Some(y)) => same_shape(x, y),
        _ => false,
    }
    &&& match (a.inputs, b.inputs) {
        (None, None) => true,
        (Some(x), Some(y)) => same_shape_list(x@, y@),
        _ => false,
    }
}

/// Two listings alike operation by operation.
pub open spec fn same_shape_listing(a: PcodeFunction, b: PcodeFunction) -> bool {
    match (a.pcode, b.pcode) {
        (None, None) => true,
        (Some(x), Some(y)) => x@.len() == y@.len() && forall|i: int|
            0 <= i < x@.len() ==> same_shape_op(#[trigger] x@[i], y@[i]),
        _ => false,
    }
}

proof fn lemma_same_shape_step(a: Varnode, b: Varnode, st: InternState)
    requires
        same_shape(a, b),
    ensures
        varnode_step(a, st) == varnode_step(b, st),
{
    reveal(varnode_step);
}

proof fn lemma_same_shape_inputs(a: Seq<Varnode>, b: Seq<Varnode>, st: InternState)
    requires
        same_shape_list(a, b),
    ensures
        inputs_step(a, st) == inputs_step(b, st),
    decreases a.len(),
{
    if a.len() > 0 {
        assert(same_shape_list(a.drop_last(), b.drop_last()));
        lemma_same_shape_inputs(a.drop_last(), b.drop_last(), st);
        if let Ok((_, s1)) = inputs_step(a.drop_last(), st) {
            assert(same_shape(a[a.len() - 1], b[b.len() - 1]));
            lemma_same_shape_step(a.last(), b.last(), s1);
        }
    }
}

proof fn lemma_same_shape_op(a: PcodeOp, b: PcodeOp, st: InternState)
    requires
        same_shape_op(a, b),
    ensures
        op_step(a, st) == op_step(b, st),
{
    if let (Some(x), Some(y)) = (a.output, b.output) {
        lemma_same_shape_step(x, y, st);
    }
    if let Ok((_, s1)) = output_step(a.output, st) {
        if let (Some(x), Some(y)) = (a.inputs, b.inputs) {
            lemma_same_shape_inputs(x@, y@, s1);
        }
    }
}

proof fn lemma_same_shape_ops(a: Seq<PcodeOp>, b: Seq<PcodeOp>, st: InternState)
    requires
        a.len() == b.len(),
        forall|i: int| 0 <= i < a.len() ==> same_shape_op(#[trigger] a[i], b[i]),
    ensures
        ops_step(a, st) == ops_step(b, st),
    decreases a.len(),
{
    if a.len() > 0 {
        lemma_same_shape_ops(a.drop_last(), b.drop_last(), st);
        if let Ok((_, s1)) = ops_step(a.drop_last(), st) {
            assert(same_shape_op(a[a.len() - 1], b[b.len() - 1]));
            lemma_same_shape_op(a.last(), b.last(), s1);
        }
    }
}

/// Relinking does not change a fingerprint: listings that differ only in
/// RAM addresses, stack offsets, the values of large constants and the
/// other details the canonical text drops have the same canonical text,
/// hence the same fingerprint, or fail alike.
pub proof fn lemma_same_shape_same_fingerprint(a: PcodeFunction, b: PcodeFunction)
    requires
        same_shape_listing(a, b),
    ensures
        canonical_text(a) == canonical_text(b),
        canonical_text(a) matches Ok(t) ==> fingerprint_of(t) == fingerprint_of(canonical_text(b)->Ok_0),
{
    if let (Some(x), Some(y)) = (a.pcode, b.pcode) {
        lemma_same_shape_ops(x@, y@, fresh_state());
    }
}

/// The numbering of temporaries is sound: every number is below the
/// next one to hand out, and distinct temporaries hold distinct numbers.
pub open spec fn interning_sound(st: InternState) -> bool {
    &&& forall|k: Seq<char>| #[trigger] st.ids.contains_key(k) ==> (st.ids[k] as nat) < st.next
    &&& forall|k1: Seq<char>, k2: Seq<char>|
        #[trigger] st.ids.contains_key(k1) && #[trigger] st.ids.contains_key(k2) && k1 != k2 ==> st.ids[k1]
            != st.ids[k2]
}

/// `b` keeps every number `a` handed out, and hands out no fewer.
pub open spec fn interning_extends(a: InternState, b: InternState) -> bool {
    &&& a.next <= b.next
    &&& forall|k: Seq<char>| #[trigger] a.ids.contains_key(k) ==> b.ids.contains_key(k) && b.ids[k] == a.ids[k]
}

proof fn lemma_varnode_step_sound(vn: Varnode, st: InternState)
    requires
        interning_sound(st),
        st.next < u32::MAX,
    ensures
        varnode_step(vn, st) matches Ok((_, s1)) ==> interning_sound(s1) && interning_extends(st, s1),
{
    reveal(varnode_step);
    if let Ok((_, s1)) = varnode_step(vn, st) {
        if s1 != st {
            let key = identity(vn);
            assert(!st.ids.contains_key(key));
            assert(s1.ids == st.ids.insert(key, st.next as u32));
            assert((st.next as u32) as nat == st.next);
            assert forall|k1: Seq<char>, k2: Seq<char>|
                #[trigger] s1.ids.contains_key(k1) && #[trigger] s1.ids.contains_key(k2) && k1 != k2 implies s1.ids[k1]
                != s1.ids[k2] by {
                if k1 != key && k2 != key {
                    assert(st.ids.contains_key(k1) && st.ids.contains_key(k2));
                } else if k1 == key {
                    assert(st.ids.contains_key(k2));
                } else {
                    assert(st.ids.contains_key(k1));
                }
            }
        }
    }
}

proof fn lemma_inputs_step_sound(vns: Seq<Varnode>, st: InternState)
    requires
        interning_sound(st),
        st.next + vns.len() <= u32::MAX,
    ensures
        inputs_step(vns, st) matches Ok((_, s1)) ==> interning_sound(s1) && interning_extends(st, s1),
    decreases vns.len(),
{
    if vns.len() > 0 {
        lemma_inputs_step_sound(vns.drop_last(), st);
        lemma_inputs_step_next(vns.drop_last(), st);
        if let Ok((_, s1)) = inputs_step(vns.drop_last(), st) {
            lemma_varnode_step_sound(vns.last(), s1);
        }
    }
}

proof fn lemma_op_step_sound(op: PcodeOp, st: InternState)
    requires
        interning_sound(st),
        st.next + op_varnodes(op) <= u32::MAX,
    ensures
        op_step(op, st) matches Ok((_, s1)) ==> interning_sound(s1) && interning_extends(st, s1),
{
    if let Some(vn) = op.output {
        lemma_varnode_step_sound(vn, st);
        lemma_varnode_step_next(vn, st);
    }
    if let Ok((_, s1)) = output_step(op.output, st) {
        if let Some(ins) = op.inputs {
            lemma_inputs_step_sound(ins@, s1);
        }
    }
}

/// Canonicalization numbers temporaries soundly: walking a listing from
/// a sound numbering keeps it sound and keeps every number already handed
/// out, so two references to the same temporary (same space and offset)
/// get the same number and different temporaries get different numbers.
/// It needs the count of numbers to stay within `u32`, which
/// [`canonicalize`] requires; the walk of a listing starts from no
/// numbers, which is sound.
pub proof fn lemma_interning_sound(ops: Seq<PcodeOp>, st: InternState)
    requires
        interning_sound(st),
        st.next + ops_varnodes(ops) <= u32::MAX,
    ensures
        ops_step(ops, st) matches Ok((_, s1)) ==> interning_sound(s1) && interning_extends(st, s1),
        interning_sound(fresh_state()),
    decreases ops.len(),
{
    if ops.len() > 0 {
        lemma_interning_sound(ops.drop_last(), st);
        lemma_ops_next(ops.drop_last(), st);
        if let Ok((_, s1)) = ops_step(ops.drop_last(), st) {
            lemma_op_step_sound(ops.last(), s1);
        }
    }
}

proof fn lemma_ops_next(ops: Seq<PcodeOp>, st: InternState)
    ensures
        ops_step(ops, st) matches Ok((_, s1)) ==> s1.next <= st.next + ops_varnodes(ops),
    decreases ops.len(),
{
    if ops.len() > 0 {
        lemma_ops_next(ops.drop_last(), st);
        if let Ok((_, s1)) = ops_step(ops.drop_last(), st) {
            lemma_op_step_next(ops.last(), s1);
        }
    }
}

/// Two constant varnodes of one size whose values differ and are both
/// at most `SMALL_CONSTANT_MAX`.
pub open spec fn small_constants_differ(a: Varnode, b: Varnode) -> bool {
    &&& a.kind matches Some(k) && k@ == "constant"@
    &&& b.kind == a.kind
    &&& size_of(a) == size_of(b)
    &&& constant_value(a) != constant_value(b)
    &&& constant_value(a) <= SMALL_CONSTANT_MAX
    &&& constant_value(b) <= SMALL_CONSTANT_MAX
}

/// Two listings alike but for input `j` of operation `k`, where they
/// hold distinct small constants.
pub open spec fn differ_in_one_small_constant(a: PcodeFunction, b: PcodeFunction, k: int, j: int) -> bool {
    match (a.pcode, b.pcode) {
        (Some(x), Some(y)) => {
            &&& x@.len() == y@.len()
            &&& 0 <= k < x@.len()
            &&& forall|i: int| 0 <= i < x@.len() && i != k ==> x@[i] == y@[i]
            &&& x@[k].opcode == y@[k].opcode
            &&& x@[k].output == y@[k].output
            &&& match (x@[k].inputs, y@[k].inputs) {
                (Some(xi), Some(yi)) => {
                    &&& xi@.len() == yi@.len()
                    &&& 0 <= j < xi@.len()
                    &&& forall|m: int| 0 <= m < xi@.len() && m != j ==> xi@[m] == yi@[m]
                    &&& small_constants_differ(xi@[j], yi@[j])
                },
                _ => false,
            }
        },
        _ => false,
    }
}

/// Two step results that fail alike, or succeed in the same state with
/// different texts.
pub open spec fn steps_differ_in_text(
    ra: Result<(Seq<char>, InternState), HashError>,
    rb: Result<(Seq<char>, InternState), HashError>,
) -> bool {
    match ra {
        Err(e) => rb == Err::<(Seq<char>, InternState), HashError>(e),
        Ok((ta, sa)) => rb matches Ok((tb, sb)) && sb == sa && ta != tb,
    }
}

proof fn lemma_middle_differs(p: Seq<char>, x: Seq<char>, y: Seq<char>, q: Seq<char>)
    requires
        x != y,
    ensures
        p + x + q != p + y + q,
{
    if p + x + q == p + y + q {
        assert((p + x + q).len() == p.len() + x.len() + q.len());
        assert((p + y + q).len() == p.len() + y.len() + q.len());
        assert(x.len() == y.len());
        assert((p + x + q).subrange(p.len() as int, (p.len() + x.len()) as int) =~= x);
        assert((p + y + q).subrange(p.len() as int, (p.len() + y.len()) as int) =~= y);
    }
}

proof fn lemma_small_constant_texts(a: Varnode, b: Varnode, st: InternState)
    requires
        small_constants_differ(a, b),
    ensures
        steps_differ_in_text(varnode_step(a, st), varnode_step(b, st)),
        varnode_step(a, st) matches Ok((_, s1)) && s1 == st,
{
    reveal(varnode_step);
    reveal_strlit("constant");
    reveal_strlit("register");
    reveal_strlit("stack");
    reveal_strlit("unique");
    let k = a.kind->0;
    assert(k@ != "register"@ && k@ != "stack"@ && k@ != "unique"@) by {
        assert(k@[0] == 'c');
        assert(k@.len() == 8);
    }
    let size = decimal(size_of(a));
    let da = decimal(constant_value(a));
    let db = decimal(constant_value(b));
    if da == db {
        lemma_decimal_injective(constant_value(a), constant_value(b));
    }
    lemma_middle_differs("C:"@, da, db, ":"@ + size);
    assert("C:"@ + da + ":"@ + size =~= "C:"@ + da + (":"@ + size));
    assert("C:"@ + db + ":"@ + size =~= "C:"@ + db + (":"@ + size));
}

proof fn lemma_inputs_one_constant(xi: Seq<Varnode>, yi: Seq<Varnode>, j: int, st: InternState)
    requires
        xi.len() == yi.len(),
        0 <= j < xi.len(),
        forall|m: int| 0 <= m < xi.len() && m != j ==> xi[m] == yi[m],
        small_constants_differ(xi[j], yi[j]),
    ensures
        steps_differ_in_text(inputs_step(xi, st), inputs_step(yi, st)),
    decreases xi.len(),
{
    let n = xi.len() - 1;
    if j == n {
        assert(xi.drop_last() =~= yi.drop_last());
        if let Ok((t, s1)) = inputs_step(xi.drop_last(), st) {
            lemma_small_constant_texts(xi.last(), yi.last(), s1);
            let ta = varnode_step(xi.last(), s1)->Ok_0.0;
            let tb = varnode_step(yi.last(), s1)->Ok_0.0;
            lemma_middle_differs(t, ta, tb, ","@);
        }
    } else {
        lemma_inputs_one_constant(xi.drop_last(), yi.drop_last(), j, st);
        assert(xi[n] == yi[n]);
        if let Ok((ta, s1)) = inputs_step(xi.drop_last(), st) {
            let tb = inputs_step(yi.drop_last(), st)->Ok_0.0;
            if let Ok((t2, s2)) = varnode_step(xi.last(), s1) {
                lemma_middle_differs(Seq::empty(), ta, tb, t2 + ","@);
                assert(Seq::<char>::empty() + ta + (t2 + ","@) =~= ta + t2 + ","@);
                assert(Seq::<char>::empty() + tb + (t2 + ","@) =~= tb + t2 + ","@);
            }
        }
    }
}

proof fn lemma_op_one_constant(a: PcodeOp, b: PcodeOp, j: int, st: InternState)
    requires
        a.opcode == b.opcode,
        a.output == b.output,
        match (a.inputs, b.inputs) {
            (Some(xi), Some(yi)) => {
                &&& xi@.len() == yi@.len()
                &&& 0 <= j < xi@.len()
                &&& forall|m: int| 0 <= m < xi@.len() && m != j ==> xi@[m] == yi@[m]
                &&& small_constants_differ(xi@[j], yi@[j])
            },
            _ => false,
        },
    ensures
        steps_differ_in_text(op_step(a, st), op_step(b, st)),
{
    if let (Some(c), Ok((ot, s1))) = (a.opcode, output_step(a.output, st)) {
        let xi = a.inputs->0;
        let yi = b.inputs->0;
        lemma_inputs_one_constant(xi@, yi@, j, s1);
        if let Ok((ia, _)) = inputs_step(xi@, s1) {
            let ib = inputs_step(yi@, s1)->Ok_0.0;
            lemma_middle_differs("O"@ + signed_decimal(c as int) + ";"@ + ot, ia, ib, "|"@);
        }
    }
}

proof fn lemma_ops_one_constant(x: Seq<PcodeOp>, y: Seq<PcodeOp>, k: int, j: int, st: InternState)
    requires
        x.len() == y.len(),
        0 <= k < x.len(),
        forall|i: int| 0 <= i < x.len() && i != k ==> x[i] == y[i],
        x[k].opcode == y[k].opcode,
        x[k].output == y[k].output,
        match (x[k].inputs, y[k].inputs) {
            (Some(xi), Some(yi)) => {
                &&& xi@.len() == yi@.len()
                &&& 0 <= j < xi@.len()
                &&& forall|m: int| 0 <= m < xi@.len() && m != j ==> xi@[m] == yi@[m]
                &&& small_constants_differ(xi@[j], yi@[j])
            },
            _ => false,
        },
    ensures
        steps_differ_in_text(ops_step(x, st), ops_step(y, st)),
    decreases x.len(),
{
    let n = x.len() - 1;
    if k == n {
        assert(x.drop_last() =~= y.drop_last());
        if let Ok((t, s1)) = ops_step(x.drop_last(), st) {
            lemma_op_one_constant(x.last(), y.last(), j, s1);
            if let Ok((ta, _)) = op_step(x.last(), s1) {
                let tb = op_step(y.last(), s1)->Ok_0.0;
                lemma_middle_differs(t, ta, tb, Seq::empty());
                assert(t + ta + Seq::<char>::empty() =~= t + ta);
                assert(t + tb + Seq::<char>::empty() =~= t + tb);
            }
        }
    } else {
        lemma_ops_one_constant(x.drop_last(), y.drop_last(), k, j, st);
        assert(x[n] == y[n]);
        if let Ok((ta, s1)) = ops_step(x.drop_last(), st) {
            let tb = ops_step(y.drop_last(), st)->Ok_0.0;
            if let Ok((t2, _)) = op_step(x.last(), s1) {
                lemma_middle_differs(Seq::empty(), ta, tb, t2);
                assert(Seq::<char>::empty() + ta + t2 =~= ta + t2);
                assert(Seq::<char>::empty() + tb + t2 =~= tb + t2);
            }
        }
    }
}

/// Small constants are kept: two listings alike but for one input that
/// holds two distinct constants, both at most `SMALL_CONSTANT_MAX` and of
/// one size, fail alike or have different canonical texts, the texts
/// whose digests are the fingerprints.
pub proof fn lemma_small_constants_distinguish(a: PcodeFunction, b: PcodeFunction, k: int, j: int)
    requires
        differ_in_one_small_constant(a, b, k, j),
    ensures
        canonical_text(a) is Err ==> canonical_text(b) == canonical_text(a),
        canonical_text(a) matches Ok(ta) ==> canonical_text(b) matches Ok(tb) && ta != tb,
{
    let x = a.pcode->0;
    let y = b.pcode->0;
    lemma_ops_one_constant(x@, y@, k, j, fresh_state());
}

} // verus!
