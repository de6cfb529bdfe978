//! PackedEncode / PackedDecode: Ghidra's compact binary encoding of
//! attributed-XML element trees, as carried over the decompiler pipe.
//!
//! Record layout (a pure record stream, no header or footer):
//!
//! - Every record starts with a header byte
//!   `[2-bit type | 1-bit extend | 5-bit id]`; type `01` opens an
//!   element, `10` closes one, `11` is an attribute.
//! - Ids of 32 and above set the extend bit and carry their upper bits
//!   in one continuation byte (`0x80 | bits`).
//! - An attribute header is followed by a type byte
//!   `[4-bit type code | 4-bit length code]`; type codes are
//!   1 bool, 2 non-negative int, 3 negative int (stored negated),
//!   4 unsigned int, 5 address-space index, 6 special space, 7 string.
//! - Integers follow as `length code` data bytes, most significant
//!   first, each carrying 7 bits under the `0x80` marker.
//! - A string is its byte length as an integer, then its UTF-8 bytes.
//!
//! Element and attribute ids are opaque here: mapping them to names is
//! left to the callers.

use vstd::prelude::*;
use vstd::utf8::*;
use crate::text::utf8_str;

verus! {

// === Header-byte layout ===

/// Mask isolating the 2-bit record-type field in a header byte.
pub const HEADER_MASK: u8 = 0xc0;

/// Bit indicating the id overflows into a continuation byte.
pub const HEADEREXTEND_MASK: u8 = 0x20;

/// Mask isolating the inline 5-bit id field.
pub const ELEMENTID_MASK: u8 = 0x1f;

/// Header byte for an element open.
pub const ELEMENT_START: u8 = 0x40;

/// Header byte for an element close.
pub const ELEMENT_END: u8 = 0x80;

/// Header byte for an attribute record.
pub const ATTRIBUTE: u8 = 0xc0;

// === Continuation / data byte layout ===

/// Mask isolating the 7-bit data field in a continuation byte.
pub const RAWDATA_MASK: u8 = 0x7f;

/// High-bit marker required on every continuation / data byte.
pub const RAWDATA_MARKER: u8 = 0x80;

/// Number of data bits per continuation byte.
pub const RAWDATA_BITSPERBYTE: u32 = 7;

// === Attribute type codes ===

/// Type code of a boolean attribute.
pub const TYPECODE_BOOLEAN: u8 = 1;

/// Type code of a non-negative signed integer.
pub const TYPECODE_SIGNEDINT_POSITIVE: u8 = 2;

/// Type code of a negative signed integer (magnitude stored).
pub const TYPECODE_SIGNEDINT_NEGATIVE: u8 = 3;

/// Type code of an unsigned integer.
pub const TYPECODE_UNSIGNEDINT: u8 = 4;

/// Type code of a basic address-space index.
pub const TYPECODE_ADDRESSSPACE: u8 = 5;

/// Type code of a special address space.
pub const TYPECODE_SPECIALSPACE: u8 = 6;

/// Type code of a string.
pub const TYPECODE_STRING: u8 = 7;

/// Largest id whose header round-trips: one continuation byte carries
/// seven more bits above the five inline ones.
pub const MAX_ROUNDTRIP_ID: u32 = 0xfff;

/// The special address spaces, carried in the length nibble of a
/// type-6 attribute.
#[derive(Debug, Clone, Copy, PartialEq, Eq)]
pub enum SpecialSpace {
    Stack,
    Join,
    Fspec,
    Iop,
    Spacebase,
}

/// A single value carried by an attribute.
#[derive(Debug, Clone, PartialEq, Eq)]
pub enum AttrValue {
    Bool(bool),
    SignedInt(i64),
    UnsignedInt(u64),
    /// Index into the registered basic address-space list.
    AddressSpace(u32),
    SpecialSpace(SpecialSpace),
    String(String),
}

/// Streaming-decode events; ids are the decoded element or attribute
/// ids.
#[derive(Debug, Clone, PartialEq, Eq)]
pub enum Event {
    ElementStart { id: u32 },
    ElementEnd { id: u32 },
    Attribute { id: u32, value: AttrValue },
}

/// Mathematical model of an [`AttrValue`]: strings by their characters.
pub enum AttrVal {
    Bool(bool),
    SignedInt(i64),
    UnsignedInt(u64),
    AddressSpace(u32),
    Special(SpecialSpace),
    Text(Seq<char>),
}

/// Mathematical model of an [`Event`].
pub enum EventVal {
    ElementStart(u32),
    ElementEnd(u32),
    Attribute(u32, AttrVal),
}

impl View for AttrValue {
    type V = AttrVal;

    open spec fn view(&self) -> AttrVal {
        match self {
            AttrValue::Bool(b) => AttrVal::Bool(*b),
            AttrValue::SignedInt(v) => AttrVal::SignedInt(*v),
            AttrValue::UnsignedInt(v) => AttrVal::UnsignedInt(*v),
            AttrValue::AddressSpace(v) => AttrVal::AddressSpace(*v),
            AttrValue::SpecialSpace(s) => AttrVal::Special(*s),
            AttrValue::String(s) => AttrVal::Text(s@),
        }
    }
}

impl View for Event {
    type V = EventVal;

    open spec fn view(&self) -> EventVal {
        match self {
            Event::ElementStart { id } => EventVal::ElementStart(*id),
            Event::ElementEnd { id } => EventVal::ElementEnd(*id),
            Event::Attribute { id, value } => EventVal::Attribute(*id, value@),
        }
    }
}

/// Why a PackedEncode stream could not be decoded.
#[derive(Debug, Clone, Copy, PartialEq, Eq)]
pub enum DecodeError {
    /// The stream ended inside a record.
    UnexpectedEof,
    /// A continuation or data byte lacks the `0x80` marker.
    MissingMarker(u8),
    /// A header byte carries record type `00`.
    InvalidRecordType(u8),
    /// A type-6 attribute names an unknown special space.
    UnknownSpecialSpace(u8),
    /// An attribute type byte carries an unknown type code.
    UnknownTypeCode(u8),
    /// A string claims more bytes than remain in the stream.
    StringTooLong { claimed: u64, remaining: usize },
    /// A string's bytes are not well-formed UTF-8.
    InvalidUtf8,
}

// ============================================================================
// Specification of the encoding
// ============================================================================

/// The 4-bit code of a special space.
pub open spec fn special_code(s: SpecialSpace) -> u8 {
    match s {
        SpecialSpace::Stack => 0,
        SpecialSpace::Join => 1,
        SpecialSpace::Fspec => 2,
        SpecialSpace::Iop => 3,
        SpecialSpace::Spacebase => 4,
    }
}

/// The special space with code `n`, if any.
pub open spec fn special_from_code(n: u8) -> Option<SpecialSpace> {
    if n == 0 {
        Some(SpecialSpace::Stack)
    } else if n == 1 {
        Some(SpecialSpace::Join)
    } else if n == 2 {
        Some(SpecialSpace::Fspec)
    } else if n == 3 {
        Some(SpecialSpace::Iop)
    } else if n == 4 {
        Some(SpecialSpace::Spacebase)
    } else {
        None
    }
}

/// The header bytes of a record of type `record_type` with id `id`:
/// the id inline when it fits in five bits, otherwise its low five bits
/// inline with the extend bit and bits 5..12 in one continuation byte.
pub open spec fn header_bytes(record_type: u8, id: u32) -> Seq<u8> {
    if id <= 31 {
        seq![(record_type + id) as u8]
    } else {
        seq![
            (record_type + HEADEREXTEND_MASK + id % 32) as u8,
            ((id / 32) % 128 + RAWDATA_MARKER) as u8,
        ]
    }
}

/// The base-128 digits of `v`, most significant first, without leading
/// zero digits (so `0` has no digits).
pub open spec fn digits(v: nat) -> Seq<u8>
    decreases v,
{
    if v == 0 {
        Seq::empty()
    } else {
        digits(v / 128).push((v % 128) as u8)
    }
}

/// The value of base-128 digits, most significant first.
pub open spec fn digits_value(ds: Seq<u8>) -> nat
    decreases ds.len(),
{
    if ds.len() == 0 {
        0
    } else {
        digits_value(ds.drop_last()) * 128 + ds.last() as nat
    }
}

/// Digits as data bytes: each with the `0x80` marker set.
pub open spec fn marked(ds: Seq<u8>) -> Seq<u8> {
    Seq::new(ds.len(), |i: int| (ds[i] + RAWDATA_MARKER) as u8)
}

/// An integer-valued attribute body: the type byte (type code and the
/// number of data bytes) followed by the marked digits of `v`.
pub open spec fn int_attr_bytes(type_code: u8, v: u64) -> Seq<u8> {
    seq![(type_code * 16 + digits(v as nat).len()) as u8] + marked(digits(v as nat))
}

/// The magnitude stored for a negative signed integer.
pub open spec fn magnitude(v: i64) -> u64 {
    (-(v as int)) as u64
}

/// The attribute body (type byte and payload) that encodes `value`.
pub open spec fn attr_body(value: AttrVal) -> Seq<u8> {
    match value {
        AttrVal::Bool(b) => seq![(TYPECODE_BOOLEAN * 16 + if b { 1int } else { 0 }) as u8],
        AttrVal::SignedInt(v) => if v >= 0 {
            int_attr_bytes(TYPECODE_SIGNEDINT_POSITIVE, v as u64)
        } else {
            int_attr_bytes(TYPECODE_SIGNEDINT_NEGATIVE, magnitude(v))
        },
        AttrVal::UnsignedInt(v) => int_attr_bytes(TYPECODE_UNSIGNEDINT, v),
        AttrVal::AddressSpace(v) => int_attr_bytes(TYPECODE_ADDRESSSPACE, v as u64),
        AttrVal::Special(s) => seq![(TYPECODE_SPECIALSPACE * 16 + special_code(s)) as u8],
        AttrVal::Text(s) => int_attr_bytes(TYPECODE_STRING, encode_utf8(s).len() as u64)
            + encode_utf8(s),
    }
}

/// The bytes of one record.
pub open spec fn event_bytes(ev: EventVal) -> Seq<u8> {
    match ev {
        EventVal::ElementStart(id) => header_bytes(ELEMENT_START, id),
        EventVal::ElementEnd(id) => header_bytes(ELEMENT_END, id),
        EventVal::Attribute(id, value) => header_bytes(ATTRIBUTE, id) + attr_body(value),
    }
}

/// The bytes of a sequence of records, in order.
pub open spec fn events_bytes(evs: Seq<EventVal>) -> Seq<u8>
    decreases evs.len(),
{
    if evs.len() == 0 {
        Seq::empty()
    } else {
        events_bytes(evs.drop_last()) + event_bytes(evs.last())
    }
}

/// The id carried by an event.
pub open spec fn event_id(ev: EventVal) -> u32 {
    match ev {
        EventVal::ElementStart(id) => id,
        EventVal::ElementEnd(id) => id,
        EventVal::Attribute(id, _) => id,
    }
}

/// A string's UTF-8 encoding is at most `usize::MAX` bytes long (it is
/// held in memory).
pub open spec fn event_fits(ev: EventVal) -> bool {
    match ev {
        EventVal::Attribute(_, AttrVal::Text(s)) => encode_utf8(s).len() <= usize::MAX,
        _ => true,
    }
}

// ============================================================================
// Specification of the decoding
// ============================================================================

/// Shifting one 7-bit digit into a 64-bit accumulator, dropping the
/// bits that overflow.
pub open spec fn shift_in(acc: u64, d: u8) -> u64 {
    ((acc as int % 0x200_0000_0000_0000) * 128 + d) as u64
}

/// Reading `n` data bytes from `pos` onto accumulator `acc`: the value
/// and the position after them, or why they are malformed.
pub open spec fn read_int_from(bytes: Seq<u8>, pos: int, n: nat, acc: u64) -> Result<
    (u64, int),
    DecodeError,
>
    decreases n,
{
    if n == 0 {
        Ok((acc, pos))
    } else if pos < 0 || pos >= bytes.len() {
        Err(DecodeError::UnexpectedEof)
    } else if bytes[pos] < RAWDATA_MARKER {
        Err(DecodeError::MissingMarker(bytes[pos]))
    } else {
        read_int_from(bytes, pos + 1, (n - 1) as nat, shift_in(acc, (bytes[pos] - 128) as u8))
    }
}

/// A `u64` reinterpreted as a two's-complement `i64`.
pub open spec fn u64_as_i64(v: u64) -> i64 {
    if v <= 0x7fff_ffff_ffff_ffff {
        v as i64
    } else {
        (v - 0x1_0000_0000_0000_0000) as i64
    }
}

/// Two's-complement negation (`i64::MIN` is its own negation).
pub open spec fn wrapping_neg(v: i64) -> i64 {
    if v == i64::MIN {
        i64::MIN
    } else {
        (-v) as i64
    }
}

/// Decoding an attribute body at `pos`: the value and the position after
/// it, or the error.
pub open spec fn read_attr_at(bytes: Seq<u8>, pos: int) -> Result<(AttrVal, int), DecodeError> {
    if pos < 0 || pos >= bytes.len() {
        Err(DecodeError::UnexpectedEof)
    } else {
        let tb = bytes[pos];
        let tc = (tb / 16) as u8;
        let lc = (tb % 16) as u8;
        let p = pos + 1;
        if tc == TYPECODE_BOOLEAN {
            Ok((AttrVal::Bool(lc != 0), p))
        } else if tc == TYPECODE_SIGNEDINT_POSITIVE {
            match read_int_from(bytes, p, lc as nat, 0) {
                Ok((v, q)) => Ok((AttrVal::SignedInt(u64_as_i64(v)), q)),
                Err(e) => Err(e),
            }
        } else if tc == TYPECODE_SIGNEDINT_NEGATIVE {
            match read_int_from(bytes, p, lc as nat, 0) {
                Ok((v, q)) => Ok((AttrVal::SignedInt(wrapping_neg(u64_as_i64(v))), q)),
                Err(e) => Err(e),
            }
        } else if tc == TYPECODE_UNSIGNEDINT {
            match read_int_from(bytes, p, lc as nat, 0) {
                Ok((v, q)) => Ok((AttrVal::UnsignedInt(v), q)),
                Err(e) => Err(e),
            }
        } else if tc == TYPECODE_ADDRESSSPACE {
            match read_int_from(bytes, p, lc as nat, 0) {
                Ok((v, q)) => Ok((AttrVal::AddressSpace((v % 0x1_0000_0000) as u32), q)),
                Err(e) => Err(e),
            }
        } else if tc == TYPECODE_SPECIALSPACE {
            match special_from_code(lc) {
                Some(s) => Ok((AttrVal::Special(s), p)),
                None => Err(DecodeError::UnknownSpecialSpace(lc)),
            }
        } else if tc == TYPECODE_STRING {
            match read_int_from(bytes, p, lc as nat, 0) {
                Ok((len, q)) => if len > bytes.len() - q {
                    Err(
                        DecodeError::StringTooLong {
                            claimed: len,
                            remaining: (bytes.len() - q) as usize,
                        },
                    )
                } else if !valid_utf8(bytes.subrange(q, q + len)) {
                    Err(DecodeError::InvalidUtf8)
                } else {
                    Ok((AttrVal::Text(decode_utf8(bytes.subrange(q, q + len))), q + len))
                },
                Err(e) => Err(e),
            }
        } else {
            Err(DecodeError::UnknownTypeCode(tc))
        }
    }
}

/// Decoding the id of a record whose header byte is `header`, the
/// continuation (if any) starting at `pos`: the id and the position
/// after the header, or the error.
pub open spec fn read_id_at(bytes: Seq<u8>, header: u8, pos: int) -> Result<(u32, int), DecodeError> {
    let inline = (header % 32) as u32;
    if (header / 32) % 2 == 0 {
        Ok((inline, pos))
    } else if pos < 0 || pos >= bytes.len() {
        Err(DecodeError::UnexpectedEof)
    } else if bytes[pos] < RAWDATA_MARKER {
        Err(DecodeError::MissingMarker(bytes[pos]))
    } else {
        Ok(((inline + (bytes[pos] - 128) * 32) as u32, pos + 1))
    }
}

/// Decoding the record at `pos`: `None` at the end of the stream,
/// otherwise the event and the position after it, or the error.
pub open spec fn next_at(bytes: Seq<u8>, pos: int) -> Result<Option<(EventVal, int)>, DecodeError> {
    if pos < 0 || pos >= bytes.len() {
        Ok(None)
    } else {
        let header = bytes[pos];
        match read_id_at(bytes, header, pos + 1) {
            Err(e) => Err(e),
            Ok((id, p)) => {
                let rt = (header / 64) as u8;
                if rt == 1 {
                    Ok(Some((EventVal::ElementStart(id), p)))
                } else if rt == 2 {
                    Ok(Some((EventVal::ElementEnd(id), p)))
                } else if rt == 3 {
                    match read_attr_at(bytes, p) {
                        Ok((v, q)) => Ok(Some((EventVal::Attribute(id, v), q))),
                        Err(e) => Err(e),
                    }
                } else {
                    Err(DecodeError::InvalidRecordType((rt * 64) as u8))
                }
            },
        }
    }
}

/// Decoding every record from `pos` to the end of the stream.
pub open spec fn decode_from(bytes: Seq<u8>, pos: int) -> Result<Seq<EventVal>, DecodeError>
    decreases bytes.len() - pos,
{
    match next_at(bytes, pos) {
        Err(e) => Err(e),
        Ok(None) => Ok(Seq::empty()),
        Ok(Some((ev, p))) => if pos < p <= bytes.len() {
            match decode_from(bytes, p) {
                Ok(rest) => Ok(seq![ev] + rest),
                Err(e) => Err(e),
            }
        } else {
            Err(DecodeError::UnexpectedEof)
        },
    }
}

// ============================================================================
// Arithmetic facts about the integer encoding
// ============================================================================

/// The digits of `v` are all below 128 and their value is `v`.
pub proof fn lemma_digits(v: nat)
    ensures
        digits_value(digits(v)) == v,
        forall|i: int| 0 <= i < digits(v).len() ==> #[trigger] digits(v)[i] < 128,
    decreases v,
{
    if v > 0 {
        lemma_digits(v / 128);
        let ds = digits(v);
        assert(ds.drop_last() =~= digits(v / 128));
        assert forall|i: int| 0 <= i < ds.len() implies #[trigger] ds[i] < 128 by {
            if i < ds.len() - 1 {
                assert(ds[i] == digits(v / 128)[i]);
            }
        }
    }
}

/// A value below `128^k` has at most `k` digits; in particular a `u64`
/// has at most ten.
pub proof fn lemma_digits_len(v: nat, k: nat)
    requires
        v < pow128(k),
    ensures
        digits(v).len() <= k,
    decreases v,
{
    if v > 0 {
        assert(k > 0);
        assert(v / 128 < pow128((k - 1) as nat)) by {
            assert(pow128(k) == 128 * pow128((k - 1) as nat));
        }
        lemma_digits_len(v / 128, (k - 1) as nat);
    }
}

/// `128^k`.
pub open spec fn pow128(k: nat) -> nat
    decreases k,
{
    if k == 0 {
        1
    } else {
        128 * pow128((k - 1) as nat)
    }
}

/// Every `u64` has at most ten base-128 digits.
pub proof fn lemma_u64_digits(v: u64)
    ensures
        digits(v as nat).len() <= 10,
        digits_value(digits(v as nat)) == v,
        forall|i: int| 0 <= i < digits(v as nat).len() ==> #[trigger] digits(v as nat)[i] < 128,
{
    reveal_with_fuel(pow128, 11);
    assert(pow128(10) == 0x4000_0000_0000_0000_00);
    lemma_digits_len(v as nat, 10);
    lemma_digits(v as nat);
}

// ============================================================================
// Encoder
// ============================================================================

/// Append-only PackedEncode writer. Callers drive a tree by
/// interleaving `open_element` / `attribute_*` / `close_element`; the
/// writer does not check that opens and closes match.
#[derive(Debug)]
pub struct Encoder {
    buf: Vec<u8>,
}

impl View for Encoder {
    type V = Seq<u8>;

    closed spec fn view(&self) -> Seq<u8> {
        self.buf@
    }
}

impl Default for Encoder {
    fn default() -> (r: Self)
        ensures
            r@ == Seq::<u8>::empty(),
    {
        Encoder::new()
    }
}

/// Appends the header bytes of a record.
fn write_header(buf: &mut Vec<u8>, record_type: u8, id: u32)
    requires
        record_type == ELEMENT_START || record_type == ELEMENT_END || record_type == ATTRIBUTE,
    ensures
        final(buf)@ == old(buf)@ + header_bytes(record_type, id),
{
    if id <= 31 {
        buf.push(record_type + (id as u8));
    } else {
        buf.push(record_type + HEADEREXTEND_MASK + ((id % 32) as u8));
        buf.push((((id / 32) % 128) as u8) + RAWDATA_MARKER);
    }
    assert(final(buf)@ =~= old(buf)@ + header_bytes(record_type, id));
}

/// Appends an integer-valued attribute body: type byte, then the
/// marked base-128 digits of `value`, most significant first.
fn write_integer_attr(buf: &mut Vec<u8>, type_code: u8, value: u64)
    requires
        1 <= type_code <= 7,
    ensures
        final(buf)@ == old(buf)@ + int_attr_bytes(type_code, value),
{
    proof {
        lemma_u64_digits(value);
    }
    let ghost start = buf@;
    let mut msb: Vec<u8> = Vec::new();
    let mut v = value;
    while v != 0
        invariant
            digits(value as nat) == digits(v as nat) + msb@,
            digits(value as nat).len() <= 10,
        decreases v,
    {
        let d = (v % 128) as u8;
        let ghost prev = msb@;
        msb.insert(0, d);
        assert(digits(v as nat) == digits((v / 128) as nat).push(d));
        assert(digits(v as nat) + prev =~= digits((v / 128) as nat) + msb@) by {
            assert(msb@ =~= seq![d] + prev);
        }
        v = v / 128;
    }
    assert(msb@ =~= digits(value as nat));
    let n = msb.len();
    buf.push(type_code * 16 + (n as u8));
    let mut i: usize = 0;
    while i < n
        invariant
            n == msb@.len(),
            msb@ == digits(value as nat),
            n <= 10,
            i <= n,
            forall|j: int| 0 <= j < n ==> #[trigger] msb@[j] < 128,
            buf@ == start + seq![(type_code * 16 + n) as u8] + marked(msb@.take(i as int)),
        decreases n - i,
    {
        let d = msb[i];
        buf.push(d + RAWDATA_MARKER);
        assert(marked(msb@.take(i + 1)) =~= marked(msb@.take(i as int)).push(
            (d + RAWDATA_MARKER) as u8,
        ));
        i = i + 1;
    }
    assert(msb@.take(n as int) =~= msb@);
}

impl Encoder {
    /// An empty document.
    pub fn new() -> (r: Self)
        ensures
            r@ == Seq::<u8>::empty(),
    {
        Encoder { buf: Vec::new() }
    }

    /// The encoded bytes, consuming the encoder.
    pub fn finish(self) -> (r: Vec<u8>)
        ensures
            r@ == self@,
    {
        self.buf
    }

    /// The bytes encoded so far.
    pub fn as_bytes(&self) -> (r: &[u8])
        ensures
            r@ == self@,
    {
        self.buf.as_slice()
    }

    /// Writes an element-open record.
    pub fn open_element(&mut self, id: u32)
        ensures
            final(self)@ == old(self)@ + event_bytes(EventVal::ElementStart(id)),
    {
        write_header(&mut self.buf, ELEMENT_START, id);
    }

    /// Writes an element-close record; matching it with the open is the
    /// caller's business.
    pub fn close_element(&mut self, id: u32)
        ensures
            final(self)@ == old(self)@ + event_bytes(EventVal::ElementEnd(id)),
    {
        write_header(&mut self.buf, ELEMENT_END, id);
    }

    /// Writes a boolean attribute; the value rides in the length nibble.
    pub fn attribute_bool(&mut self, id: u32, value: bool)
        ensures
            final(self)@ == old(self)@ + event_bytes(EventVal::Attribute(id, AttrVal::Bool(value))),
    {
        let ghost start = self.buf@;
        write_header(&mut self.buf, ATTRIBUTE, id);
        let flag: u8 = if value { 1 } else { 0 };
        self.buf.push(TYPECODE_BOOLEAN * 16 + flag);
        assert(self.buf@ =~= start + event_bytes(EventVal::Attribute(id, AttrVal::Bool(value))));
    }

    /// Writes a signed integer attribute: non-negative values under type
    /// code 2, negative ones as their magnitude under type code 3.
    pub fn attribute_signed_int(&mut self, id: u32, value: i64)
        ensures
            final(self)@ == old(self)@ + event_bytes(
                EventVal::Attribute(id, AttrVal::SignedInt(value)),
            ),
    {
        let ghost start = self.buf@;
        write_header(&mut self.buf, ATTRIBUTE, id);
        if value >= 0 {
            write_integer_attr(&mut self.buf, TYPECODE_SIGNEDINT_POSITIVE, value as u64);
        } else {
            let negated: u64 = if value == i64::MIN {
                0x8000_0000_0000_0000
            } else {
                (-value) as u64
            };
            write_integer_attr(&mut self.buf, TYPECODE_SIGNEDINT_NEGATIVE, negated);
        }
        assert(self.buf@ =~= start + event_bytes(
            EventVal::Attribute(id, AttrVal::SignedInt(value)),
        ));
    }

    /// Writes an unsigned integer attribute.
    pub fn attribute_unsigned_int(&mut self, id: u32, value: u64)
        ensures
            final(self)@ == old(self)@ + event_bytes(
                EventVal::Attribute(id, AttrVal::UnsignedInt(value)),
            ),
    {
        let ghost start = self.buf@;
        write_header(&mut self.buf, ATTRIBUTE, id);
        write_integer_attr(&mut self.buf, TYPECODE_UNSIGNEDINT, value);
        assert(self.buf@ =~= start + event_bytes(
            EventVal::Attribute(id, AttrVal::UnsignedInt(value)),
        ));
    }

    /// Writes a basic address-space attribute.
    pub fn attribute_address_space(&mut self, id: u32, space_index: u32)
        ensures
            final(self)@ == old(self)@ + event_bytes(
                EventVal::Attribute(id, AttrVal::AddressSpace(space_index)),
            ),
    {
        let ghost start = self.buf@;
        write_header(&mut self.buf, ATTRIBUTE, id);
        write_integer_attr(&mut self.buf, TYPECODE_ADDRESSSPACE, space_index as u64);
        assert(self.buf@ =~= start + event_bytes(
            EventVal::Attribute(id, AttrVal::AddressSpace(space_index)),
        ));
    }

    /// Writes a special address-space attribute; the space code rides
    /// in the length nibble.
    pub fn attribute_special_space(&mut self, id: u32, space: SpecialSpace)
        ensures
            final(self)@ == old(self)@ + event_bytes(
                EventVal::Attribute(id, AttrVal::Special(space)),
            ),
    {
        let ghost start = self.buf@;
        write_header(&mut self.buf, ATTRIBUTE, id);
        let code: u8 = match space {
            SpecialSpace::Stack => 0,
            SpecialSpace::Join => 1,
            SpecialSpace::Fspec => 2,
            SpecialSpace::Iop => 3,
            SpecialSpace::Spacebase => 4,
        };
        self.buf.push(TYPECODE_SPECIALSPACE * 16 + code);
        assert(self.buf@ =~= start + event_bytes(EventVal::Attribute(id, AttrVal::Special(space))));
    }

    /// Writes a string attribute: its UTF-8 byte length, then the bytes.
    pub fn attribute_string(&mut self, id: u32, value: &str)
        ensures
            final(self)@ == old(self)@ + event_bytes(
                EventVal::Attribute(id, AttrVal::Text(value@)),
            ),
    {
        let ghost start = self.buf@;
        write_header(&mut self.buf, ATTRIBUTE, id);
        let bytes = value.as_bytes();
        write_integer_attr(&mut self.buf, TYPECODE_STRING, bytes.len() as u64);
        self.buf.extend_from_slice(bytes);
        assert(self.buf@ =~= start + event_bytes(EventVal::Attribute(id, AttrVal::Text(value@))));
    }
}

// ============================================================================
// Decoder
// ============================================================================

/// A successful integer read consumes exactly `n` bytes, all inside the
/// stream.
pub proof fn lemma_read_int_pos(bytes: Seq<u8>, pos: int, n: nat, acc: u64)
    ensures
        read_int_from(bytes, pos, n, acc) matches Ok((_, q)) ==> q == pos + n && (n > 0 ==> 0 <= pos
            && q <= bytes.len()),
    decreases n,
{
    if n > 0 && 0 <= pos < bytes.len() && bytes[pos] >= RAWDATA_MARKER {
        lemma_read_int_pos(bytes, pos + 1, (n - 1) as nat, shift_in(acc, (bytes[pos] - 128) as u8));
    }
}

/// Streaming PackedEncode reader: one [`Event`] per call to
/// [`Decoder::next_event`] until the input is exhausted. It tracks no
/// nesting; callers compose that on top.
pub struct Decoder<'a> {
    bytes: &'a [u8],
    pos: usize,
}

impl<'a> Decoder<'a> {
    #[verifier::type_invariant]
    closed spec fn wf(self) -> bool {
        self.pos <= self.bytes@.len()
    }

    /// The whole input.
    pub closed spec fn input(self) -> Seq<u8> {
        self.bytes@
    }

    /// How many input bytes have been consumed.
    pub closed spec fn cursor(self) -> int {
        self.pos as int
    }

    /// A reader positioned at the start of `bytes`.
    pub fn new(bytes: &'a [u8]) -> (r: Self)
        ensures
            r.input() == bytes@,
            r.cursor() == 0,
    {
        Decoder { bytes, pos: 0 }
    }

    /// Bytes not yet consumed.
    pub fn remaining(&self) -> (r: usize)
        ensures
            r == self.input().len() - self.cursor(),
    {
        proof {
            use_type_invariant(self);
        }
        self.bytes.len() - self.pos
    }

    /// Whether every byte has been consumed.
    pub fn is_eof(&self) -> (r: bool)
        ensures
            r == (self.cursor() >= self.input().len()),
    {
        self.pos >= self.bytes.len()
    }

    fn read_u8(&mut self) -> (r: Result<u8, DecodeError>)
        ensures
            final(self).input() == old(self).input(),
            old(self).cursor() < old(self).input().len() ==> r == Ok::<u8, DecodeError>(
                old(self).input()[old(self).cursor()],
            ) && final(self).cursor() == old(self).cursor() + 1,
            old(self).cursor() >= old(self).input().len() ==> r == Err::<u8, DecodeError>(
                DecodeError::UnexpectedEof,
            ) && final(self).cursor() == old(self).cursor(),
    {
        proof {
            use_type_invariant(&*self);
        }
        if self.pos >= self.bytes.len() {
            return Err(DecodeError::UnexpectedEof);
        }
        let b = self.bytes[self.pos];
        self.pos = self.pos + 1;
        Ok(b)
    }

    fn decode_id(&mut self, header: u8) -> (r: Result<u32, DecodeError>)
        ensures
            final(self).input() == old(self).input(),
            match read_id_at(old(self).input(), header, old(self).cursor()) {
                Ok((id, p)) => r == Ok::<u32, DecodeError>(id) && final(self).cursor() == p,
                Err(e) => r == Err::<u32, DecodeError>(e),
            },
    {
        let inline = (header % 32) as u32;
        if (header / 32) % 2 == 0 {
            return Ok(inline);
        }
        let b = match self.read_u8() {
            Ok(b) => b,
            Err(e) => return Err(e),
        };
        if b < RAWDATA_MARKER {
            return Err(DecodeError::MissingMarker(b));
        }
        Ok(inline + ((b - RAWDATA_MARKER) as u32) * 32)
    }

    fn read_integer_bytes(&mut self, length_code: u8) -> (r: Result<u64, DecodeError>)
        ensures
            final(self).input() == old(self).input(),
            match read_int_from(old(self).input(), old(self).cursor(), length_code as nat, 0) {
                Ok((v, p)) => r == Ok::<u64, DecodeError>(v) && final(self).cursor() == p,
                Err(e) => r == Err::<u64, DecodeError>(e),
            },
    {
        let ghost bytes = self.input();
        let ghost start = self.cursor();
        let mut value: u64 = 0;
        let mut k: u8 = 0;
        while k < length_code
            invariant
                self.input() == bytes,
                bytes == old(self).input(),
                start == old(self).cursor(),
                k <= length_code,
                self.cursor() == start + k,
                read_int_from(bytes, start, length_code as nat, 0) == read_int_from(
                    bytes,
                    self.cursor(),
                    (length_code - k) as nat,
                    value,
                ),
            decreases length_code - k,
        {
            let b = match self.read_u8() {
                Ok(b) => b,
                Err(e) => return Err(e),
            };
            if b < RAWDATA_MARKER {
                return Err(DecodeError::MissingMarker(b));
            }
            let d = b - RAWDATA_MARKER;
            value = (value % 0x200_0000_0000_0000) * 128 + (d as u64);
            k = k + 1;
        }
        Ok(value)
    }

    fn read_attribute_value(&mut self) -> (r: Result<AttrValue, DecodeError>)
        ensures
            final(self).input() == old(self).input(),
            match read_attr_at(old(self).input(), old(self).cursor()) {
                Ok((v, p)) => (r matches Ok(a) && a@ == v) && final(self).cursor() == p,
                Err(e) => r == Err::<AttrValue, DecodeError>(e),
            },
    {
        let type_byte = match self.read_u8() {
            Ok(b) => b,
            Err(e) => return Err(e),
        };
        let type_code = type_byte / 16;
        let length_code = type_byte % 16;
        if type_code == TYPECODE_BOOLEAN {
            Ok(AttrValue::Bool(length_code != 0))
        } else if type_code == TYPECODE_SIGNEDINT_POSITIVE {
            let v = match self.read_integer_bytes(length_code) {
                Ok(v) => v,
                Err(e) => return Err(e),
            };
            Ok(AttrValue::SignedInt(as_signed(v)))
        } else if type_code == TYPECODE_SIGNEDINT_NEGATIVE {
            let v = match self.read_integer_bytes(length_code) {
                Ok(v) => v,
                Err(e) => return Err(e),
            };
            Ok(AttrValue::SignedInt(negate_signed(as_signed(v))))
        } else if type_code == TYPECODE_UNSIGNEDINT {
            let v = match self.read_integer_bytes(length_code) {
                Ok(v) => v,
                Err(e) => return Err(e),
            };
            Ok(AttrValue::UnsignedInt(v))
        } else if type_code == TYPECODE_ADDRESSSPACE {
            let v = match self.read_integer_bytes(length_code) {
                Ok(v) => v,
                Err(e) => return Err(e),
            };
            Ok(AttrValue::AddressSpace((v % 0x1_0000_0000) as u32))
        } else if type_code == TYPECODE_SPECIALSPACE {
            match special_space_from_u8(length_code) {
                Some(sp) => Ok(AttrValue::SpecialSpace(sp)),
                None => Err(DecodeError::UnknownSpecialSpace(length_code)),
            }
        } else if type_code == TYPECODE_STRING {
            let ghost p = self.cursor();
            let len = match self.read_integer_bytes(length_code) {
                Ok(v) => v,
                Err(e) => return Err(e),
            };
            proof {
                lemma_read_int_pos(self.input(), p, length_code as nat, 0);
                use_type_invariant(&*self);
            }
            let remaining = self.bytes.len() - self.pos;
            if len > remaining as u64 {
                return Err(DecodeError::StringTooLong { claimed: len, remaining });
            }
            let n = len as usize;
            let raw = vstd::slice::slice_subrange(self.bytes, self.pos, self.pos + n);
            match utf8_str(raw) {
                Some(s) => {
                    self.pos = self.pos + n;
                    Ok(AttrValue::String(s.to_owned()))
                },
                None => Err(DecodeError::InvalidUtf8),
            }
        } else {
            Err(DecodeError::UnknownTypeCode(type_code))
        }
    }

    /// Decodes the next record: `Ok(None)` at a clean end of input, the
    /// error on a truncated or invalid record.
    pub fn next_event(&mut self) -> (r: Result<Option<Event>, DecodeError>)
        ensures
            final(self).input() == old(self).input(),
            match next_at(old(self).input(), old(self).cursor()) {
                Ok(None) => r matches Ok(None) && final(self).cursor() == old(self).cursor(),
                Ok(Some((ev, p))) => (r matches Ok(Some(e)) && e@ == ev) && final(self).cursor()
                    == p,
                Err(e) => r == Err::<Option<Event>, DecodeError>(e),
            },
    {
        proof {
            use_type_invariant(&*self);
        }
        if self.is_eof() {
            return Ok(None);
        }
        let header = match self.read_u8() {
            Ok(b) => b,
            Err(e) => return Err(e),
        };
        let id = match self.decode_id(header) {
            Ok(id) => id,
            Err(e) => return Err(e),
        };
        let record_type = header / 64;
        if record_type == 1 {
            Ok(Some(Event::ElementStart { id }))
        } else if record_type == 2 {
            Ok(Some(Event::ElementEnd { id }))
        } else if record_type == 3 {
            match self.read_attribute_value() {
                Ok(value) => Ok(Some(Event::Attribute { id, value })),
                Err(e) => Err(e),
            }
        } else {
            Err(DecodeError::InvalidRecordType(record_type * 64))
        }
    }
}

/// A `u64` reinterpreted as a two's-complement `i64`.
fn as_signed(v: u64) -> (r: i64)
    ensures
        r == u64_as_i64(v),
{
    if v <= 0x7fff_ffff_ffff_ffff {
        v as i64
    } else {
        ((v - 0x8000_0000_0000_0000) as i64) + i64::MIN
    }
}

/// Two's-complement negation.
fn negate_signed(v: i64) -> (r: i64)
    ensures
        r == wrapping_neg(v),
{
    if v == i64::MIN {
        i64::MIN
    } else {
        -v
    }
}

/// The special space with code `n`, if any.
fn special_space_from_u8(n: u8) -> (r: Option<SpecialSpace>)
    ensures
        r == special_from_code(n),
{
    if n == 0 {
        Some(SpecialSpace::Stack)
    } else if n == 1 {
        Some(SpecialSpace::Join)
    } else if n == 2 {
        Some(SpecialSpace::Fspec)
    } else if n == 3 {
        Some(SpecialSpace::Iop)
    } else if n == 4 {
        Some(SpecialSpace::Spacebase)
    } else {
        None
    }
}

// ============================================================================
// Round-trip laws
// ============================================================================

/// Appending digits never lowers the value.
proof fn lemma_value_prefix_le(a: Seq<u8>, b: Seq<u8>)
    ensures
        digits_value(a) <= digits_value(a + b),
    decreases b.len(),
{
    if b.len() > 0 {
        lemma_value_prefix_le(a, b.drop_last());
        assert((a + b).drop_last() =~= a + b.drop_last());
    }
}

/// Reading marked digits onto the value of a prefix yields the value of
/// prefix and digits together, as long as that fits in 64 bits.
proof fn lemma_read_marked(bytes: Seq<u8>, pos: int, pre: Seq<u8>, ds: Seq<u8>)
    requires
        0 <= pos,
        pos + ds.len() <= bytes.len(),
        bytes.subrange(pos, pos + ds.len()) == marked(ds),
        forall|i: int| 0 <= i < ds.len() ==> #[trigger] ds[i] < 128,
        digits_value(pre + ds) <= u64::MAX,
    ensures
        read_int_from(bytes, pos, ds.len(), digits_value(pre) as u64) == Ok::<(u64, int), DecodeError>(
            (digits_value(pre + ds) as u64, pos + ds.len()),
        ),
    decreases ds.len(),
{
    if ds.len() == 0 {
        assert(pre + ds =~= pre);
    } else {
        let d0 = ds[0];
        let pre1 = pre.push(d0);
        let rest = ds.drop_first();
        assert(bytes[pos] == bytes.subrange(pos, pos + ds.len())[0]);
        assert(pre1 + rest =~= pre + ds);
        assert(pre1.drop_last() =~= pre);
        lemma_value_prefix_le(pre1, rest);
        assert(digits_value(pre1) == digits_value(pre) * 128 + d0);
        assert(digits_value(pre) < 0x200_0000_0000_0000);
        assert(shift_in(digits_value(pre) as u64, (bytes[pos] - 128) as u8) == digits_value(pre1));
        assert(bytes.subrange(pos + 1, pos + 1 + rest.len()) =~= marked(rest)) by {
            assert forall|i: int| 0 <= i < rest.len() implies bytes.subrange(
                pos + 1,
                pos + 1 + rest.len(),
            )[i] == marked(rest)[i] by {
                assert(bytes.subrange(pos, pos + ds.len())[i + 1] == marked(ds)[i + 1]);
            }
        }
        assert forall|i: int| 0 <= i < rest.len() implies #[trigger] rest[i] < 128 by {
            assert(rest[i] == ds[i + 1]);
        }
        lemma_read_marked(bytes, pos + 1, pre1, rest);
    }
}

/// An integer-valued attribute body decodes back to its type code,
/// digit count and value.
proof fn lemma_int_attr(bytes: Seq<u8>, pos: int, type_code: u8, v: u64)
    requires
        1 <= type_code <= 7,
        0 <= pos,
        pos + int_attr_bytes(type_code, v).len() <= bytes.len(),
        bytes.subrange(pos, pos + int_attr_bytes(type_code, v).len()) == int_attr_bytes(
            type_code,
            v,
        ),
    ensures
        bytes[pos] / 16 == type_code,
        read_int_from(bytes, pos + 1, (bytes[pos] % 16) as nat, 0) == Ok::<(u64, int), DecodeError>(
            (v, pos + int_attr_bytes(type_code, v).len()),
        ),
{
    lemma_u64_digits(v);
    let ds = digits(v as nat);
    let n = ds.len();
    let ib = int_attr_bytes(type_code, v);
    assert(bytes[pos] == ib[0]);
    assert(ib[0] == type_code * 16 + n);
    assert(bytes.subrange(pos + 1, pos + 1 + n) =~= marked(ds)) by {
        assert forall|i: int| 0 <= i < n implies bytes.subrange(pos + 1, pos + 1 + n)[i] == marked(
            ds,
        )[i] by {
            assert(bytes.subrange(pos, pos + ib.len())[i + 1] == ib[i + 1]);
        }
    }
    assert(Seq::<u8>::empty() + ds =~= ds);
    lemma_read_marked(bytes, pos + 1, Seq::empty(), ds);
}

/// A header decodes back to its record type and id, for ids up to
/// `MAX_ROUNDTRIP_ID`.
proof fn lemma_header(bytes: Seq<u8>, pos: int, record_type: u8, id: u32)
    requires
        record_type == ELEMENT_START || record_type == ELEMENT_END || record_type == ATTRIBUTE,
        id <= MAX_ROUNDTRIP_ID,
        0 <= pos,
        pos + header_bytes(record_type, id).len() <= bytes.len(),
        bytes.subrange(pos, pos + header_bytes(record_type, id).len()) == header_bytes(
            record_type,
            id,
        ),
    ensures
        bytes[pos] / 64 == record_type / 64,
        read_id_at(bytes, bytes[pos], pos + 1) == Ok::<(u32, int), DecodeError>(
            (id, pos + header_bytes(record_type, id).len()),
        ),
{
    let hb = header_bytes(record_type, id);
    assert(bytes[pos] == hb[0]);
    if id > 31 {
        assert(bytes[pos + 1] == hb[1]);
    }
}

/// Decoding the bytes of any well-formed record, wherever it stands in
/// a stream, yields that record and moves past exactly its bytes.
pub proof fn lemma_event_roundtrip(pre: Seq<u8>, ev: EventVal, post: Seq<u8>)
    requires
        event_id(ev) <= MAX_ROUNDTRIP_ID,
        event_fits(ev),
    ensures
        next_at(pre + event_bytes(ev) + post, pre.len() as int) == Ok::<
            Option<(EventVal, int)>,
            DecodeError,
        >(Some((ev, (pre.len() + event_bytes(ev).len()) as int))),
{
    let bytes = pre + event_bytes(ev) + post;
    let pos = pre.len() as int;
    let eb = event_bytes(ev);
    assert(bytes.subrange(pos, pos + eb.len()) =~= eb);
    match ev {
        EventVal::ElementStart(id) => {
            lemma_header(bytes, pos, ELEMENT_START, id);
        },
        EventVal::ElementEnd(id) => {
            lemma_header(bytes, pos, ELEMENT_END, id);
        },
        EventVal::Attribute(id, value) => {
            let hb = header_bytes(ATTRIBUTE, id);
            let body = attr_body(value);
            assert(bytes.subrange(pos, pos + hb.len()) =~= hb) by {
                assert forall|i: int| 0 <= i < hb.len() implies bytes.subrange(pos, pos + hb.len())[i]
                    == hb[i] by {
                    assert(bytes.subrange(pos, pos + eb.len())[i] == eb[i]);
                }
            }
            lemma_header(bytes, pos, ATTRIBUTE, id);
            let q = pos + hb.len();
            assert(bytes.subrange(q, q + body.len()) =~= body) by {
                assert forall|i: int| 0 <= i < body.len() implies bytes.subrange(q, q + body.len())[i]
                    == body[i] by {
                    assert(bytes.subrange(pos, pos + eb.len())[hb.len() + i] == eb[hb.len() + i]);
                }
            }
            lemma_attr_roundtrip(bytes, q, value);
        },
    }
}

/// An attribute body decodes back to its value.
proof fn lemma_attr_roundtrip(bytes: Seq<u8>, q: int, value: AttrVal)
    requires
        0 <= q,
        q + attr_body(value).len() <= bytes.len(),
        bytes.subrange(q, q + attr_body(value).len()) == attr_body(value),
        value matches AttrVal::Text(s) ==> encode_utf8(s).len() <= usize::MAX,
    ensures
        read_attr_at(bytes, q) == Ok::<(AttrVal, int), DecodeError>(
            (value, q + attr_body(value).len()),
        ),
{
    let body = attr_body(value);
    assert(bytes[q] == body[0]);
    match value {
        AttrVal::Bool(b) => {},
        AttrVal::SignedInt(v) => {
            if v >= 0 {
                lemma_int_attr(bytes, q, TYPECODE_SIGNEDINT_POSITIVE, v as u64);
            } else {
                lemma_int_attr(bytes, q, TYPECODE_SIGNEDINT_NEGATIVE, magnitude(v));
            }
        },
        AttrVal::UnsignedInt(v) => {
            lemma_int_attr(bytes, q, TYPECODE_UNSIGNEDINT, v);
        },
        AttrVal::AddressSpace(v) => {
            lemma_int_attr(bytes, q, TYPECODE_ADDRESSSPACE, v as u64);
        },
        AttrVal::Special(sp) => {},
        AttrVal::Text(s) => {
            let sb = encode_utf8(s);
            let len = sb.len() as u64;
            let ib = int_attr_bytes(TYPECODE_STRING, len);
            assert(bytes.subrange(q, q + ib.len()) =~= ib) by {
                assert forall|i: int| 0 <= i < ib.len() implies bytes.subrange(q, q + ib.len())[i]
                    == ib[i] by {
                    assert(bytes.subrange(q, q + body.len())[i] == body[i]);
                }
            }
            lemma_int_attr(bytes, q, TYPECODE_STRING, len);
            let r = q + ib.len();
            assert(bytes.subrange(r, r + len) =~= sb) by {
                assert forall|i: int| 0 <= i < sb.len() implies bytes.subrange(r, r + len)[i]
                    == sb[i] by {
                    assert(bytes.subrange(q, q + body.len())[ib.len() + i] == body[ib.len() + i]);
                }
            }
            encode_utf8_valid_utf8(s);
            encode_utf8_decode_utf8(s);
        },
    }
}

/// Every record of a sequence has a header that round-trips and fits in
/// memory.
pub open spec fn events_wf(evs: Seq<EventVal>) -> bool {
    forall|i: int|
        0 <= i < evs.len() ==> event_id(#[trigger] evs[i]) <= MAX_ROUNDTRIP_ID && event_fits(
            evs[i],
        )
}

/// Bytes of a sequence of records, written front to back.
proof fn lemma_events_bytes_front(evs: Seq<EventVal>)
    requires
        evs.len() > 0,
    ensures
        events_bytes(evs) == event_bytes(evs[0]) + events_bytes(evs.drop_first()),
    decreases evs.len(),
{
    if evs.len() == 1 {
        assert(evs.drop_last() =~= Seq::<EventVal>::empty());
        assert(evs.drop_first() =~= Seq::<EventVal>::empty());
        assert(events_bytes(evs) =~= event_bytes(evs[0]) + events_bytes(evs.drop_first()));
    } else {
        lemma_events_bytes_front(evs.drop_last());
        assert(evs.drop_last().drop_first() =~= evs.drop_first().drop_last());
        assert(evs.drop_first().last() == evs.last());
        assert(evs.drop_last()[0] == evs[0]);
        assert(events_bytes(evs) =~= event_bytes(evs[0]) + events_bytes(evs.drop_first()));
    }
}

/// Decoding the concatenated bytes of well-formed records, from any
/// point where they start, yields exactly those records.
pub proof fn lemma_stream_roundtrip(pre: Seq<u8>, evs: Seq<EventVal>)
    requires
        events_wf(evs),
    ensures
        decode_from(pre + events_bytes(evs), pre.len() as int) == Ok::<Seq<EventVal>, DecodeError>(
            evs,
        ),
    decreases evs.len(),
{
    let bytes = pre + events_bytes(evs);
    if evs.len() == 0 {
        assert(bytes =~= pre);
        assert(evs =~= Seq::<EventVal>::empty());
        assert(next_at(bytes, pre.len() as int) == Ok::<Option<(EventVal, int)>, DecodeError>(None));
    } else {
        let e0 = evs[0];
        let rest = evs.drop_first();
        lemma_events_bytes_front(evs);
        assert(event_id(e0) <= MAX_ROUNDTRIP_ID && event_fits(e0));
        assert(bytes =~= pre + event_bytes(e0) + events_bytes(rest));
        lemma_event_roundtrip(pre, e0, events_bytes(rest));
        let pre1 = pre + event_bytes(e0);
        assert(bytes =~= pre1 + events_bytes(rest));
        assert(events_wf(rest)) by {
            assert forall|i: int| 0 <= i < rest.len() implies event_id(#[trigger] rest[i])
                <= MAX_ROUNDTRIP_ID && event_fits(rest[i]) by {
                assert(rest[i] == evs[i + 1]);
            }
        }
        lemma_stream_roundtrip(pre1, rest);
        assert(seq![e0] + rest =~= evs);
    }
}

/// Decoding what an encoder wrote, from the start, yields the records
/// it was asked to write.
pub proof fn lemma_decode_encoded(evs: Seq<EventVal>)
    requires
        events_wf(evs),
    ensures
        decode_from(events_bytes(evs), 0) == Ok::<Seq<EventVal>, DecodeError>(evs),
{
    assert(Seq::<u8>::empty() + events_bytes(evs) =~= events_bytes(evs));
    lemma_stream_roundtrip(Seq::empty(), evs);
}

/// Each call of `next_event` walks a decodable stream one record on:
/// where the records from `pos` on decode to `evs`, the record at `pos`
/// is the first of them and the rest decode from where it ends, and
/// once `evs` is used up the reader reports the end of input. With
/// [`lemma_decode_encoded`], repeated calls on what an encoder wrote
/// give back its records in order, then the end.
pub proof fn lemma_decode_step(bytes: Seq<u8>, pos: int, evs: Seq<EventVal>)
    requires
        decode_from(bytes, pos) == Ok::<Seq<EventVal>, DecodeError>(evs),
    ensures
        evs.len() == 0 ==> next_at(bytes, pos) == Ok::<Option<(EventVal, int)>, DecodeError>(None),
        evs.len() > 0 ==> (next_at(bytes, pos) matches Ok(Some((ev, p))) && ev == evs[0] && pos < p
            <= bytes.len() && decode_from(bytes, p) == Ok::<Seq<EventVal>, DecodeError>(
            evs.drop_first(),
        )),
{
    if let Ok(Some((ev, p))) = next_at(bytes, pos) {
        let rest = decode_from(bytes, p)->Ok_0;
        assert(evs == seq![ev] + rest);
        assert(evs.drop_first() =~= rest);
    }
}

// ============================================================================
// The encoding never emits a zero byte
// ============================================================================

/// No byte of `b` is `0x00`.
pub open spec fn no_zero_byte(b: Seq<u8>) -> bool {
    forall|i: int| 0 <= i < b.len() ==> #[trigger] b[i] != 0
}

/// A record carries no NUL character in a string value.
pub open spec fn event_without_nul(ev: EventVal) -> bool {
    match ev {
        EventVal::Attribute(_, AttrVal::Text(s)) => forall|i: int|
            0 <= i < s.len() ==> #[trigger] s[i] != '\0',
        _ => true,
    }
}

proof fn lemma_scalar_nonzero(c: char)
    requires
        c != '\0',
    ensures
        no_zero_byte(encode_scalar(c as u32)),
{
    let v = c as u32;
    char_is_scalar(c);
    assert(v != 0);
    if has_width_1_encoding(v) {
        assert(leading_byte_width_1(v) != 0) by (bit_vector)
            requires
                v != 0,
                v <= 0x7f,
        ;
    } else if has_width_2_encoding(v) {
        assert(leading_byte_width_2(v) != 0 && last_continuation_byte(v) != 0) by (bit_vector);
    } else if has_width_3_encoding(v) {
        assert(leading_byte_width_3(v) != 0 && second_last_continuation_byte(v) != 0
            && last_continuation_byte(v) != 0) by (bit_vector);
    } else {
        assert(leading_byte_width_4(v) != 0 && third_last_continuation_byte(v) != 0
            && second_last_continuation_byte(v) != 0 && last_continuation_byte(v) != 0)
            by (bit_vector);
    }
}

/// UTF-8 text without NUL characters has no zero byte.
proof fn lemma_utf8_nonzero(s: Seq<char>)
    requires
        forall|i: int| 0 <= i < s.len() ==> #[trigger] s[i] != '\0',
    ensures
        no_zero_byte(encode_utf8(s)),
    decreases s.len(),
{
    if s.len() > 0 {
        lemma_scalar_nonzero(s[0]);
        assert forall|i: int| 0 <= i < s.drop_first().len() implies #[trigger] s.drop_first()[i]
            != '\0' by {
            assert(s.drop_first()[i] == s[i + 1]);
        }
        lemma_utf8_nonzero(s.drop_first());
    }
}

proof fn lemma_concat_nonzero(a: Seq<u8>, b: Seq<u8>)
    requires
        no_zero_byte(a),
        no_zero_byte(b),
    ensures
        no_zero_byte(a + b),
{
    assert forall|i: int| 0 <= i < (a + b).len() implies #[trigger] (a + b)[i] != 0 by {
        if i >= a.len() {
            assert((a + b)[i] == b[i - a.len()]);
        }
    }
}

proof fn lemma_int_attr_nonzero(type_code: u8, v: u64)
    requires
        1 <= type_code <= 7,
    ensures
        no_zero_byte(int_attr_bytes(type_code, v)),
{
    lemma_u64_digits(v);
    let ds = digits(v as nat);
    assert(no_zero_byte(marked(ds))) by {
        assert forall|i: int| 0 <= i < marked(ds).len() implies #[trigger] marked(ds)[i] != 0 by {
            assert(ds[i] < 128);
        }
    }
    lemma_concat_nonzero(seq![(type_code * 16 + ds.len()) as u8], marked(ds));
}

/// Every byte of a record whose strings hold no NUL character is
/// non-zero, so such records can never spell the frame sentinel
/// `0x00 0x00 0x01`.
pub proof fn lemma_event_bytes_nonzero(ev: EventVal)
    requires
        event_without_nul(ev),
    ensures
        no_zero_byte(event_bytes(ev)),
{
    match ev {
        EventVal::ElementStart(id) => {},
        EventVal::ElementEnd(id) => {},
        EventVal::Attribute(id, value) => {
            let hb = header_bytes(ATTRIBUTE, id);
            assert(no_zero_byte(hb));
            match value {
                AttrVal::SignedInt(v) => {
                    if v >= 0 {
                        lemma_int_attr_nonzero(TYPECODE_SIGNEDINT_POSITIVE, v as u64);
                    } else {
                        lemma_int_attr_nonzero(TYPECODE_SIGNEDINT_NEGATIVE, magnitude(v));
                    }
                },
                AttrVal::UnsignedInt(v) => lemma_int_attr_nonzero(TYPECODE_UNSIGNEDINT, v),
                AttrVal::AddressSpace(v) => lemma_int_attr_nonzero(TYPECODE_ADDRESSSPACE, v as u64),
                AttrVal::Text(s) => {
                    lemma_int_attr_nonzero(TYPECODE_STRING, encode_utf8(s).len() as u64);
                    lemma_utf8_nonzero(s);
                    lemma_concat_nonzero(
                        int_attr_bytes(TYPECODE_STRING, encode_utf8(s).len() as u64),
                        encode_utf8(s),
                    );
                },
                _ => {},
            }
            lemma_concat_nonzero(hb, attr_body(value));
        },
    }
}

/// Every encoder call keeps its output free of zero bytes: an encoder
/// starts empty, each `open_element`, `close_element` and `attribute_*`
/// call appends the bytes of its record, and appending a record whose
/// strings hold no NUL character to zero-free bytes leaves them
/// zero-free. So whatever `finish` returns after such calls holds no
/// `0x00` byte, hence no frame sentinel `0x00 0x00 0x01`.
pub proof fn lemma_encoder_output_stays_clean(before: Seq<u8>, ev: EventVal)
    requires
        no_zero_byte(before),
        event_without_nul(ev),
    ensures
        no_zero_byte(before + event_bytes(ev)),
        no_zero_byte(Seq::<u8>::empty()),
{
    lemma_event_bytes_nonzero(ev);
    lemma_concat_nonzero(before, event_bytes(ev));
}

/// A whole document of such records has no zero byte.
pub proof fn lemma_events_bytes_nonzero(evs: Seq<EventVal>)
    requires
        forall|i: int| 0 <= i < evs.len() ==> event_without_nul(#[trigger] evs[i]),
    ensures
        no_zero_byte(events_bytes(evs)),
    decreases evs.len(),
{
    if evs.len() > 0 {
        lemma_events_bytes_nonzero(evs.drop_last());
        lemma_event_bytes_nonzero(evs.last());
        lemma_concat_nonzero(events_bytes(evs.drop_last()), event_bytes(evs.last()));
    }
}

/// Every decoded record consumes at least its header byte and stays
/// inside the stream.
pub proof fn lemma_next_at_advances(bytes: Seq<u8>, pos: int)
    ensures
        next_at(bytes, pos) matches Ok(Some((_, p))) ==> pos < p <= bytes.len(),
{
    if 0 <= pos < bytes.len() {
        let header = bytes[pos];
        if let Ok((id, p)) = read_id_at(bytes, header, pos + 1) {
            if (header / 64) as u8 == 3 {
                if p < bytes.len() {
                    let tb = bytes[p];
                    let lc = (tb % 16) as u8;
                    lemma_read_int_pos(bytes, p + 1, lc as nat, 0);
                }
            }
        }
    }
}

} // verus!
