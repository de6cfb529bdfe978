//! Frame-marker layer of the decompiler IPC protocol.
//!
//! The wire is a byte stream punctuated by 4-byte "alignment burst"
//! markers `0x00 0x00 0x01 <type>`: a three-byte resync sentinel and a
//! byte naming the frame kind. Frames have no length prefix; each runs
//! until its close marker. Payloads must therefore never spell a
//! sentinel themselves, which is why raw bytes travel A-P encoded (see
//! [`super::nibble`]) and structured data PackedEncode'd (see
//! [`super::packed`]).
//!
//! The scanners are written as byte-at-a-time state machines
//! ([`marker_step`], [`until_step`]) so that a caller holding a live
//! stream can drive them one byte at a time; the [`Cursor`]-based
//! readers below drive them over bytes already in memory.

use vstd::prelude::*;

verus! {

/// Frame kinds, by the type byte of their marker (2 through 17).
#[derive(Debug, Clone, Copy, PartialEq, Eq, Hash)]
pub enum FrameType {
    /// Host opens a top-level command frame (2).
    CommandStart,
    /// Close of the top-level command frame (3).
    CommandEnd,
    /// Decompiler opens a callback query (4).
    QueryStart,
    /// Close of the callback query (5).
    QueryEnd,
    /// Top-level command response open (6).
    CommandResponseStart,
    /// Top-level command response close (7).
    CommandResponseEnd,
    /// Host opens a response to a callback (8).
    QueryResponseStart,
    /// Close of the callback response (9).
    QueryResponseEnd,
    /// Either side opens an exception payload (10).
    ExceptionStart,
    /// Close of an exception payload (11).
    ExceptionEnd,
    /// Opens an A-P encoded raw byte stream (12).
    ByteStart,
    /// Close of a byte stream (13).
    ByteEnd,
    /// Opens a string payload (14).
    StringStart,
    /// Close of a string payload (15).
    StringEnd,
    /// Native warning message open (16).
    WarningStart,
    /// Warning close (17).
    WarningEnd,
}

/// The type byte of each frame kind.
pub open spec fn frame_code(t: FrameType) -> u8 {
    match t {
        FrameType::CommandStart => 2,
        FrameType::CommandEnd => 3,
        FrameType::QueryStart => 4,
        FrameType::QueryEnd => 5,
        FrameType::CommandResponseStart => 6,
        FrameType::CommandResponseEnd => 7,
        FrameType::QueryResponseStart => 8,
        FrameType::QueryResponseEnd => 9,
        FrameType::ExceptionStart => 10,
        FrameType::ExceptionEnd => 11,
        FrameType::ByteStart => 12,
        FrameType::ByteEnd => 13,
        FrameType::StringStart => 14,
        FrameType::StringEnd => 15,
        FrameType::WarningStart => 16,
        FrameType::WarningEnd => 17,
    }
}

/// The frame kind whose type byte is `b`, if any.
pub open spec fn frame_of_code(b: u8) -> Option<FrameType> {
    if b == 2 {
        Some(FrameType::CommandStart)
    } else if b == 3 {
        Some(FrameType::CommandEnd)
    } else if b == 4 {
        Some(FrameType::QueryStart)
    } else if b == 5 {
        Some(FrameType::QueryEnd)
    } else if b == 6 {
        Some(FrameType::CommandResponseStart)
    } else if b == 7 {
        Some(FrameType::CommandResponseEnd)
    } else if b == 8 {
        Some(FrameType::QueryResponseStart)
    } else if b == 9 {
        Some(FrameType::QueryResponseEnd)
    } else if b == 10 {
        Some(FrameType::ExceptionStart)
    } else if b == 11 {
        Some(FrameType::ExceptionEnd)
    } else if b == 12 {
        Some(FrameType::ByteStart)
    } else if b == 13 {
        Some(FrameType::ByteEnd)
    } else if b == 14 {
        Some(FrameType::StringStart)
    } else if b == 15 {
        Some(FrameType::StringEnd)
    } else if b == 16 {
        Some(FrameType::WarningStart)
    } else if b == 17 {
        Some(FrameType::WarningEnd)
    } else {
        None
    }
}

/// Open markers are the even type bytes.
pub open spec fn spec_is_open(t: FrameType) -> bool {
    frame_code(t) % 2 == 0
}

/// The close marker of an open marker: the next type byte.
pub open spec fn spec_matching_close(t: FrameType) -> Option<FrameType> {
    if spec_is_open(t) {
        frame_of_code((frame_code(t) + 1) as u8)
    } else {
        None
    }
}

impl FrameType {
    /// The frame kind of a raw type byte; `None` outside `2..=17`, which
    /// callers treat as a protocol violation.
    pub fn from_byte(b: u8) -> (r: Option<FrameType>)
        ensures
            r == frame_of_code(b),
    {
        match b {
            2 => Some(FrameType::CommandStart),
            3 => Some(FrameType::CommandEnd),
            4 => Some(FrameType::QueryStart),
            5 => Some(FrameType::QueryEnd),
            6 => Some(FrameType::CommandResponseStart),
            7 => Some(FrameType::CommandResponseEnd),
            8 => Some(FrameType::QueryResponseStart),
            9 => Some(FrameType::QueryResponseEnd),
            10 => Some(FrameType::ExceptionStart),
            11 => Some(FrameType::ExceptionEnd),
            12 => Some(FrameType::ByteStart),
            13 => Some(FrameType::ByteEnd),
            14 => Some(FrameType::StringStart),
            15 => Some(FrameType::StringEnd),
            16 => Some(FrameType::WarningStart),
            17 => Some(FrameType::WarningEnd),
            _ => None,
        }
    }

    /// The type byte of this frame kind.
    pub fn code(self) -> (r: u8)
        ensures
            r == frame_code(self),
    {
        match self {
            FrameType::CommandStart => 2,
            FrameType::CommandEnd => 3,
            FrameType::QueryStart => 4,
            FrameType::QueryEnd => 5,
            FrameType::CommandResponseStart => 6,
            FrameType::CommandResponseEnd => 7,
            FrameType::QueryResponseStart => 8,
            FrameType::QueryResponseEnd => 9,
            FrameType::ExceptionStart => 10,
            FrameType::ExceptionEnd => 11,
            FrameType::ByteStart => 12,
            FrameType::ByteEnd => 13,
            FrameType::StringStart => 14,
            FrameType::StringEnd => 15,
            FrameType::WarningStart => 16,
            FrameType::WarningEnd => 17,
        }
    }

    /// Whether this is an "open" marker.
    pub fn is_open(self) -> (r: bool)
        ensures
            r == spec_is_open(self),
    {
        matches!(
            self,
            FrameType::CommandStart | FrameType::QueryStart | FrameType::CommandResponseStart
                | FrameType::QueryResponseStart | FrameType::ExceptionStart | FrameType::ByteStart
                | FrameType::StringStart | FrameType::WarningStart
        )
    }

    /// The close marker paired with an open marker; `None` for a close
    /// marker.
    pub fn matching_close(self) -> (r: Option<FrameType>)
        ensures
            r == spec_matching_close(self),
    {
        match self {
            FrameType::CommandStart => Some(FrameType::CommandEnd),
            FrameType::QueryStart => Some(FrameType::QueryEnd),
            FrameType::CommandResponseStart => Some(FrameType::CommandResponseEnd),
            FrameType::QueryResponseStart => Some(FrameType::QueryResponseEnd),
            FrameType::ExceptionStart => Some(FrameType::ExceptionEnd),
            FrameType::ByteStart => Some(FrameType::ByteEnd),
            FrameType::StringStart => Some(FrameType::StringEnd),
            FrameType::WarningStart => Some(FrameType::WarningEnd),
            _ => None,
        }
    }
}

/// Every type byte names at most one frame kind, and every frame kind
/// is found again from its type byte.
pub proof fn lemma_frame_code_roundtrip(t: FrameType)
    ensures
        frame_of_code(frame_code(t)) == Some(t),
        2 <= frame_code(t) <= 17,
{
}

/// Sentinel prefix shared by every marker.
pub const SENTINEL: [u8; 3] = [0x00, 0x00, 0x01];

/// The four bytes of the marker for `t`.
pub open spec fn marker_bytes(t: FrameType) -> Seq<u8> {
    seq![0u8, 0u8, 1u8, frame_code(t)]
}

/// Why a frame could not be read.
#[derive(Debug, Clone, Copy, PartialEq, Eq)]
pub enum WireError {
    /// The stream ended before a complete marker.
    UnexpectedEof,
    /// A sentinel was followed by a type byte outside `2..=17`.
    UnknownFrameType(u8),
    /// A marker other than the one required was read.
    UnexpectedMarker { expected: FrameType, got: FrameType },
    /// A marker other than the awaited close appeared inside a frame.
    NestedMarker { close: FrameType, got: FrameType },
}

// ============================================================================
// Writing
// ============================================================================

/// Appends the marker for `ty`: always exactly four bytes.
pub fn write_marker(w: &mut Vec<u8>, ty: FrameType) -> (r: Result<(), WireError>)
    ensures
        r is Ok,
        final(w)@ == old(w)@ + marker_bytes(ty),
{
    w.push(SENTINEL[0]);
    w.push(SENTINEL[1]);
    w.push(SENTINEL[2]);
    w.push(ty.code());
    assert(final(w)@ =~= old(w)@ + marker_bytes(ty));
    Ok(())
}

/// Appends a `string_start` marker, `payload` verbatim, and a
/// `string_end` marker. Keeping sentinels out of the payload is the
/// caller's business.
pub fn write_string_frame(w: &mut Vec<u8>, payload: &[u8]) -> (r: Result<(), WireError>)
    ensures
        r is Ok,
        final(w)@ == old(w)@ + marker_bytes(FrameType::StringStart) + payload@ + marker_bytes(
            FrameType::StringEnd,
        ),
{
    let _ = write_marker(w, FrameType::StringStart);
    w.extend_from_slice(payload);
    let _ = write_marker(w, FrameType::StringEnd);
    Ok(())
}

// ============================================================================
// Scanning for a marker
// ============================================================================

/// What one byte does to the marker scanner.
#[derive(Debug, Clone, Copy, PartialEq, Eq)]
pub enum MarkerScan {
    /// Keep scanning in the given state (how many sentinel bytes have
    /// been matched).
    Pending(u8),
    /// A complete marker was read.
    Found(FrameType),
    /// A sentinel was followed by an unknown type byte.
    Unknown(u8),
}

/// The marker scanner's step. States count matched sentinel bytes;
/// leading garbage is skipped, and a zero after a partial match keeps
/// the run of zeros alive.
pub open spec fn spec_marker_step(state: u8, b: u8) -> MarkerScan {
    if state == 3 {
        match frame_of_code(b) {
            Some(t) => MarkerScan::Found(t),
            None => MarkerScan::Unknown(b),
        }
    } else if state == 0 && b == 0 {
        MarkerScan::Pending(1)
    } else if state == 1 && b == 0 {
        MarkerScan::Pending(2)
    } else if state == 2 && b == 1 {
        MarkerScan::Pending(3)
    } else if b == 0 {
        MarkerScan::Pending(if state >= 1 { state } else { 1 })
    } else {
        MarkerScan::Pending(0)
    }
}

/// Feeds one byte to the marker scanner.
pub fn marker_step(state: u8, b: u8) -> (r: MarkerScan)
    requires
        state <= 3,
    ensures
        r == spec_marker_step(state, b),
        r matches MarkerScan::Pending(s) ==> s <= 3,
{
    if state == 3 {
        match FrameType::from_byte(b) {
            Some(t) => MarkerScan::Found(t),
            None => MarkerScan::Unknown(b),
        }
    } else if state == 0 && b == 0 {
        MarkerScan::Pending(1)
    } else if state == 1 && b == 0 {
        MarkerScan::Pending(2)
    } else if state == 2 && b == 1 {
        MarkerScan::Pending(3)
    } else if b == 0 {
        MarkerScan::Pending(if state >= 1 { state } else { 1 })
    } else {
        MarkerScan::Pending(0)
    }
}

/// Scanning `bytes` from `pos` in state `state`: the marker found and
/// the position after it, or the error.
pub open spec fn marker_scan(bytes: Seq<u8>, pos: int, state: u8) -> Result<(FrameType, int), WireError>
    decreases bytes.len() - pos,
{
    if pos < 0 || pos >= bytes.len() {
        Err(WireError::UnexpectedEof)
    } else {
        match spec_marker_step(state, bytes[pos]) {
            MarkerScan::Found(t) => Ok((t, pos + 1)),
            MarkerScan::Unknown(b) => Err(WireError::UnknownFrameType(b)),
            MarkerScan::Pending(s) => marker_scan(bytes, pos + 1, s),
        }
    }
}

// ============================================================================
// Scanning a payload up to its close marker
// ============================================================================

/// What one byte does to the payload scanner.
#[derive(Debug, Clone, PartialEq, Eq)]
pub enum UntilScan {
    /// Keep scanning in the given state after appending `emit` to the
    /// payload.
    Pending { state: u8, emit: Vec<u8> },
    /// A complete marker was read.
    Marker(FrameType),
    /// A sentinel was followed by an unknown type byte.
    Unknown(u8),
}

/// Mathematical model of [`UntilScan`].
pub enum UntilStep {
    Pending(u8, Seq<u8>),
    Marker(FrameType),
    Unknown(u8),
}

impl View for UntilScan {
    type V = UntilStep;

    open spec fn view(&self) -> UntilStep {
        match self {
            UntilScan::Pending { state, emit } => UntilStep::Pending(*state, emit@),
            UntilScan::Marker(t) => UntilStep::Marker(*t),
            UntilScan::Unknown(b) => UntilStep::Unknown(*b),
        }
    }
}

/// The `n` zero bytes a partial sentinel match was holding back.
pub open spec fn held_zeros(n: u8) -> Seq<u8> {
    Seq::new(n as nat, |i: int| 0u8)
}

/// The payload scanner's step. Bytes of a partial sentinel are held
/// back. A further zero after two held zeros keeps the match alive: the
/// oldest held zero is payload. Any other byte that breaks the match
/// flushes the held zeros to the payload and is payload too.
pub open spec fn spec_until_step(state: u8, b: u8) -> UntilStep {
    if state == 3 {
        match frame_of_code(b) {
            Some(t) => UntilStep::Marker(t),
            None => UntilStep::Unknown(b),
        }
    } else if state == 0 && b == 0 {
        UntilStep::Pending(1, Seq::empty())
    } else if state == 1 && b == 0 {
        UntilStep::Pending(2, Seq::empty())
    } else if state == 2 && b == 1 {
        UntilStep::Pending(3, Seq::empty())
    } else if b == 0 {
        UntilStep::Pending(2, held_zeros(1))
    } else {
        UntilStep::Pending(0, held_zeros(state).push(b))
    }
}

/// Feeds one byte to the payload scanner.
pub fn until_step(state: u8, b: u8) -> (r: UntilScan)
    requires
        state <= 3,
    ensures
        r@ == spec_until_step(state, b),
        r matches UntilScan::Pending { state: s, .. } ==> s <= 3,
{
    if state == 3 {
        return match FrameType::from_byte(b) {
            Some(t) => UntilScan::Marker(t),
            None => UntilScan::Unknown(b),
        };
    }
    if state == 0 && b == 0 {
        return UntilScan::Pending { state: 1, emit: Vec::new() };
    }
    if state == 1 && b == 0 {
        return UntilScan::Pending { state: 2, emit: Vec::new() };
    }
    if state == 2 && b == 1 {
        return UntilScan::Pending { state: 3, emit: Vec::new() };
    }
    if b == 0 {
        let mut one: Vec<u8> = Vec::new();
        one.push(0);
        assert(one@ =~= held_zeros(1));
        return UntilScan::Pending { state: 2, emit: one };
    }
    let mut emit: Vec<u8> = Vec::new();
    let mut k: u8 = 0;
    while k < state
        invariant
            k <= state <= 2,
            emit@ =~= held_zeros(k),
        decreases state - k,
    {
        emit.push(0);
        k = k + 1;
    }
    emit.push(b);
    UntilScan::Pending { state: 0, emit }
}

/// Scanning a payload from `pos` in state `state` with `out` collected
/// so far, until the marker `close`: the payload and the position after
/// the marker, or the error.
pub open spec fn until_scan(bytes: Seq<u8>, pos: int, state: u8, out: Seq<u8>, close: FrameType) -> Result<
    (Seq<u8>, int),
    WireError,
>
    decreases bytes.len() - pos,
{
    if pos < 0 || pos >= bytes.len() {
        Err(WireError::UnexpectedEof)
    } else {
        match spec_until_step(state, bytes[pos]) {
            UntilStep::Marker(t) => if t == close {
                Ok((out, pos + 1))
            } else {
                Err(WireError::NestedMarker { close, got: t })
            },
            UntilStep::Unknown(b) => Err(WireError::UnknownFrameType(b)),
            UntilStep::Pending(s, emit) => until_scan(bytes, pos + 1, s, out + emit, close),
        }
    }
}

// ============================================================================
// Reading from bytes in memory
// ============================================================================

/// A read position over bytes in memory.
pub struct Cursor {
    data: Vec<u8>,
    pos: usize,
}

impl Cursor {
    #[verifier::type_invariant]
    closed spec fn wf(self) -> bool {
        self.pos <= self.data@.len()
    }

    /// All the bytes.
    pub closed spec fn data(self) -> Seq<u8> {
        self.data@
    }

    /// How many bytes have been read.
    pub closed spec fn position(self) -> int {
        self.pos as int
    }

    /// A cursor at the start of `data`.
    pub fn new(data: Vec<u8>) -> (r: Cursor)
        ensures
            r.data() == data@,
            r.position() == 0,
    {
        Cursor { data, pos: 0 }
    }

    /// The next byte, or `None` at the end.
    pub fn read_byte(&mut self) -> (r: Option<u8>)
        ensures
            final(self).data() == old(self).data(),
            old(self).position() < old(self).data().len() ==> r == Some(
                old(self).data()[old(self).position()],
            ) && final(self).position() == old(self).position() + 1,
            old(self).position() >= old(self).data().len() ==> r is None && final(self).position()
                == old(self).position(),
    {
        proof {
            use_type_invariant(&*self);
        }
        if self.pos < self.data.len() {
            let b = self.data[self.pos];
            self.pos = self.pos + 1;
            Some(b)
        } else {
            None
        }
    }

    /// How many bytes have been read.
    pub fn offset(&self) -> (r: usize)
        ensures
            r == self.position(),
    {
        self.pos
    }
}

/// Reads the next marker, silently skipping any bytes before a
/// sentinel. Errors when the input ends first or the type byte is
/// unknown.
pub fn read_marker(r: &mut Cursor) -> (res: Result<FrameType, WireError>)
    ensures
        final(r).data() == old(r).data(),
        match marker_scan(old(r).data(), old(r).position(), 0) {
            Ok((t, p)) => res == Ok::<FrameType, WireError>(t) && final(r).position() == p,
            Err(e) => res == Err::<FrameType, WireError>(e),
        },
{
    let ghost bytes = r.data();
    let ghost start = r.position();
    let mut state: u8 = 0;
    loop
        invariant
            r.data() == bytes,
            bytes == old(r).data(),
            start == old(r).position(),
            state <= 3,
            marker_scan(bytes, start, 0) == marker_scan(bytes, r.position(), state),
        decreases bytes.len() - r.position(),
    {
        let b = match r.read_byte() {
            Some(b) => b,
            None => return Err(WireError::UnexpectedEof),
        };
        match marker_step(state, b) {
            MarkerScan::Found(t) => return Ok(t),
            MarkerScan::Unknown(x) => return Err(WireError::UnknownFrameType(x)),
            MarkerScan::Pending(s) => {
                state = s;
            },
        }
    }
}

/// Reads the next marker and requires it to be `expected`.
pub fn expect_marker(r: &mut Cursor, expected: FrameType) -> (res: Result<(), WireError>)
    ensures
        final(r).data() == old(r).data(),
        match marker_scan(old(r).data(), old(r).position(), 0) {
            Ok((t, p)) => final(r).position() == p && if t == expected {
                res is Ok
            } else {
                res == Err::<(), WireError>(WireError::UnexpectedMarker { expected, got: t })
            },
            Err(e) => res == Err::<(), WireError>(e),
        },
{
    let got = match read_marker(r) {
        Ok(t) => t,
        Err(e) => return Err(e),
    };
    if got.code() != expected.code() {
        proof {
            lemma_frame_code_roundtrip(got);
            lemma_frame_code_roundtrip(expected);
        }
        return Err(WireError::UnexpectedMarker { expected, got });
    }
    proof {
        lemma_frame_code_roundtrip(got);
        lemma_frame_code_roundtrip(expected);
    }
    Ok(())
}

/// Reads bytes until the marker `close`, returning those before it.
/// Bytes of a sentinel that does not complete are payload; any other
/// complete marker is a nesting violation.
pub fn read_until_marker(r: &mut Cursor, close: FrameType) -> (res: Result<Vec<u8>, WireError>)
    ensures
        final(r).data() == old(r).data(),
        match until_scan(old(r).data(), old(r).position(), 0, Seq::empty(), close) {
            Ok((out, p)) => (res matches Ok(v) && v@ == out) && final(r).position() == p,
            Err(e) => res == Err::<Vec<u8>, WireError>(e),
        },
{
    let ghost bytes = r.data();
    let ghost start = r.position();
    let mut out: Vec<u8> = Vec::new();
    let mut state: u8 = 0;
    loop
        invariant
            r.data() == bytes,
            bytes == old(r).data(),
            start == old(r).position(),
            state <= 3,
            until_scan(bytes, start, 0, Seq::empty(), close) == until_scan(
                bytes,
                r.position(),
                state,
                out@,
                close,
            ),
        decreases bytes.len() - r.position(),
    {
        let b = match r.read_byte() {
            Some(b) => b,
            None => return Err(WireError::UnexpectedEof),
        };
        match until_step(state, b) {
            UntilScan::Marker(t) => {
                proof {
                    lemma_frame_code_roundtrip(t);
                    lemma_frame_code_roundtrip(close);
                }
                if t.code() == close.code() {
                    return Ok(out);
                } else {
                    return Err(WireError::NestedMarker { close, got: t });
                }
            },
            UntilScan::Unknown(x) => return Err(WireError::UnknownFrameType(x)),
            UntilScan::Pending { state: s, emit } => {
                let mut e = emit;
                out.append(&mut e);
                state = s;
            },
        }
    }
}

/// Reading a string frame at `pos`: its payload and the position after
/// its close marker, or the error.
pub open spec fn string_frame_at(bytes: Seq<u8>, pos: int) -> Result<(Seq<u8>, int), WireError> {
    match marker_scan(bytes, pos, 0) {
        Err(e) => Err(e),
        Ok((t, p)) => if t == FrameType::StringStart {
            until_scan(bytes, p, 0, Seq::empty(), FrameType::StringEnd)
        } else {
            Err(WireError::UnexpectedMarker { expected: FrameType::StringStart, got: t })
        },
    }
}

/// Reads a `string_start` .. `string_end` frame, returning the bytes
/// between the markers.
pub fn read_string_frame(r: &mut Cursor) -> (res: Result<Vec<u8>, WireError>)
    ensures
        final(r).data() == old(r).data(),
        match string_frame_at(old(r).data(), old(r).position()) {
            Ok((out, p)) => (res matches Ok(v) && v@ == out) && final(r).position() == p,
            Err(e) => res == Err::<Vec<u8>, WireError>(e),
        },
{
    match expect_marker(r, FrameType::StringStart) {
        Ok(()) => {},
        Err(e) => return Err(e),
    }
    read_until_marker(r, FrameType::StringEnd)
}

// ============================================================================
// Laws
// ============================================================================

/// The bytes `0x00 0x00 0x01` stand at index `i` of `b`.
pub open spec fn sentinel_at(b: Seq<u8>, i: int) -> bool {
    0 <= i && i + 3 <= b.len() && b[i] == 0 && b[i + 1] == 0 && b[i + 2] == 1
}

/// The marker scanner's state after reading all of `g` from state 0
/// (state 3 once a sentinel has been matched).
pub open spec fn marker_run(g: Seq<u8>) -> u8
    decreases g.len(),
{
    if g.len() == 0 {
        0
    } else {
        let s = marker_run(g.drop_last());
        if s == 3 {
            3
        } else {
            match spec_marker_step(s, g.last()) {
                MarkerScan::Pending(t) => t,
                _ => 3,
            }
        }
    }
}

/// The marker scanner's states stay within `0..=3`.
proof fn lemma_marker_run_bound(g: Seq<u8>)
    ensures
        marker_run(g) <= 3,
    decreases g.len(),
{
    if g.len() > 0 {
        lemma_marker_run_bound(g.drop_last());
    }
}

/// Without a sentinel in `g`, the scanner ends `g` in state 2 exactly
/// when `g` ends with two zeros, in state 1 when it ends with a single
/// zero, and in state 0 otherwise.
proof fn lemma_marker_run_no_sentinel(g: Seq<u8>)
    requires
        forall|i: int| !sentinel_at(g, i),
    ensures
        marker_run(g) <= 2,
        marker_run(g) >= 1 ==> g.len() >= 1 && g.last() == 0,
        marker_run(g) == 2 ==> g.len() >= 2 && g[g.len() - 2] == 0,
    decreases g.len(),
{
    if g.len() > 0 {
        let q = g.drop_last();
        assert forall|i: int| !sentinel_at(q, i) by {
            if sentinel_at(q, i) {
                assert(sentinel_at(g, i));
            }
        }
        lemma_marker_run_no_sentinel(q);
        if marker_run(q) == 2 && g.last() == 1 {
            assert(sentinel_at(g, g.len() - 3));
        }
    }
}

/// Scanning over bytes that spell `g` moves the scanner to
/// `marker_run(g)`, as long as no sentinel was matched.
proof fn lemma_marker_scan_prefix(bytes: Seq<u8>, pos: int, g: Seq<u8>)
    requires
        0 <= pos,
        pos + g.len() <= bytes.len(),
        bytes.subrange(pos, pos + g.len()) == g,
        marker_run(g) <= 2,
    ensures
        marker_scan(bytes, pos, 0) == marker_scan(bytes, pos + g.len(), marker_run(g)),
    decreases g.len(),
{
    if g.len() > 0 {
        let q = g.drop_last();
        lemma_marker_run_bound(q);
        assert(bytes.subrange(pos, pos + q.len()) =~= q);
        lemma_marker_scan_prefix(bytes, pos, q);
        assert(bytes[pos + q.len()] == g.last());
    }
}

/// A marker is found after any bytes that hold no sentinel: reading
/// `g` followed by the marker for `t` yields `t` and stops right after
/// it.
pub proof fn lemma_read_marker_after(g: Seq<u8>, t: FrameType, rest: Seq<u8>)
    requires
        forall|i: int| !sentinel_at(g, i),
    ensures
        marker_scan(g + marker_bytes(t) + rest, 0, 0) == Ok::<(FrameType, int), WireError>(
            (t, g.len() + 4int),
        ),
{
    let bytes = g + marker_bytes(t) + rest;
    lemma_marker_run_no_sentinel(g);
    assert(bytes.subrange(0, g.len() as int) =~= g);
    lemma_marker_scan_prefix(bytes, 0, g);
    let n = g.len() as int;
    assert(bytes[n] == 0 && bytes[n + 1] == 0 && bytes[n + 2] == 1 && bytes[n + 3] == frame_code(t));
    lemma_frame_code_roundtrip(t);
    let s = marker_run(g);
    assert(marker_scan(bytes, n + 3, 3) == Ok::<(FrameType, int), WireError>((t, n + 4)));
    assert(marker_scan(bytes, n + 2, 2) == marker_scan(bytes, n + 3, 3));
    if s == 0 {
        assert(marker_scan(bytes, n + 1, 1) == marker_scan(bytes, n + 2, 2));
        assert(marker_scan(bytes, n, 0) == marker_scan(bytes, n + 1, 1));
    } else {
        assert(marker_scan(bytes, n + 1, 2) == marker_scan(bytes, n + 2, 2));
        assert(marker_scan(bytes, n, s) == marker_scan(bytes, n + 1, 2));
    }
}

/// The marker reader stops at the first sentinel: with `i` the least
/// index where `0x00 0x00 0x01` stands, it consumes exactly `i + 4`
/// bytes and yields the frame type named by the byte after the sentinel
/// (an error for an unknown one), or reports the end of input when that
/// byte is missing; without any sentinel it reports the end of input.
/// The bytes before the sentinel are skipped.
pub proof fn lemma_read_marker_first_sentinel(bytes: Seq<u8>, i: int)
    requires
        sentinel_at(bytes, i) || (i == bytes.len() && forall|j: int| !#[trigger] sentinel_at(bytes, j)),
        forall|j: int| j < i ==> !#[trigger] sentinel_at(bytes, j),
    ensures
        marker_scan(bytes, 0, 0) == if i + 3 < bytes.len() {
            match frame_of_code(bytes[i + 3]) {
                Some(t) => Ok::<(FrameType, int), WireError>((t, i + 4)),
                None => Err(WireError::UnknownFrameType(bytes[i + 3])),
            }
        } else {
            Err(WireError::UnexpectedEof)
        },
{
    let g = bytes.take(i);
    assert forall|j: int| !sentinel_at(g, j) by {
        if sentinel_at(g, j) {
            assert(sentinel_at(bytes, j));
        }
    }
    lemma_marker_run_no_sentinel(g);
    assert(bytes.subrange(0, g.len() as int) =~= g);
    lemma_marker_scan_prefix(bytes, 0, g);
    let s = marker_run(g);
    if i < bytes.len() {
        assert(marker_scan(bytes, i + 2, 2) == marker_scan(bytes, i + 3, 3));
        if s == 0 {
            assert(marker_scan(bytes, i + 1, 1) == marker_scan(bytes, i + 2, 2));
            assert(marker_scan(bytes, i, 0) == marker_scan(bytes, i + 1, 1));
        } else {
            assert(marker_scan(bytes, i + 1, 2) == marker_scan(bytes, i + 2, 2));
            assert(marker_scan(bytes, i, s) == marker_scan(bytes, i + 1, 2));
        }
    }
}

/// A written marker reads back as itself.
pub proof fn lemma_marker_roundtrip(t: FrameType, rest: Seq<u8>)
    ensures
        marker_scan(marker_bytes(t) + rest, 0, 0) == Ok::<(FrameType, int), WireError>((t, 4)),
{
    lemma_read_marker_after(Seq::empty(), t, rest);
    assert(Seq::<u8>::empty() + marker_bytes(t) + rest =~= marker_bytes(t) + rest);
}

/// The payload scanner's state and collected payload after reading all
/// of `p` from state 0 (state 3 once a sentinel has been matched).
pub open spec fn until_run(p: Seq<u8>) -> (u8, Seq<u8>)
    decreases p.len(),
{
    if p.len() == 0 {
        (0, Seq::empty())
    } else {
        let (s, o) = until_run(p.drop_last());
        if s == 3 {
            (3, o)
        } else {
            match spec_until_step(s, p.last()) {
                UntilStep::Pending(t, e) => (t, o + e),
                _ => (3, o),
            }
        }
    }
}

/// The payload scanner's states stay within `0..=3`.
proof fn lemma_until_run_bound(p: Seq<u8>)
    ensures
        until_run(p).0 <= 3,
    decreases p.len(),
{
    if p.len() > 0 {
        lemma_until_run_bound(p.drop_last());
    }
}

/// A payload holds no sentinel `0x00 0x00 0x01`, so a frame can carry
/// it.
pub open spec fn frames_cleanly(p: Seq<u8>) -> bool {
    forall|i: int| !#[trigger] sentinel_at(p, i)
}

/// Reading a payload without a sentinel never matches one; the scanner
/// then holds back the payload's trailing zeros, at most two.
proof fn lemma_until_run_clean(p: Seq<u8>)
    requires
        frames_cleanly(p),
    ensures
        until_run(p).0 <= 2,
        until_run(p).0 >= 1 ==> p.len() >= 1 && p.last() == 0,
        until_run(p).0 == 2 ==> p.len() >= 2 && p[p.len() - 2] == 0,
    decreases p.len(),
{
    if p.len() > 0 {
        let q = p.drop_last();
        assert forall|i: int| !#[trigger] sentinel_at(q, i) by {
            if sentinel_at(q, i) {
                assert(sentinel_at(p, i));
            }
        }
        lemma_until_run_clean(q);
        let n = p.len() as int;
        if until_run(q).0 == 2 && p.last() == 1 {
            assert(sentinel_at(p, n - 3));
        }
    }
}

/// While no sentinel has been matched, the collected payload and the
/// held-back zeros together are exactly the bytes read.
proof fn lemma_until_run_accounts(p: Seq<u8>)
    requires
        until_run(p).0 <= 2,
    ensures
        until_run(p).1 + held_zeros(until_run(p).0) == p,
    decreases p.len(),
{
    if p.len() > 0 {
        let q = p.drop_last();
        lemma_until_run_bound(q);
        lemma_until_run_accounts(q);
        let (s, o) = until_run(q);
        assert(o + held_zeros(s) == q);
        let (t, o2) = until_run(p);
        assert(o2 + held_zeros(t) =~= p) by {
            assert(q.push(p.last()) =~= p);
        }
    }
}

/// Scanning over bytes that spell `p` moves the payload scanner to
/// `until_run(p)`, as long as no sentinel was matched.
proof fn lemma_until_scan_prefix(
    bytes: Seq<u8>,
    pos: int,
    p: Seq<u8>,
    out: Seq<u8>,
    close: FrameType,
)
    requires
        0 <= pos,
        pos + p.len() <= bytes.len(),
        bytes.subrange(pos, pos + p.len()) == p,
        until_run(p).0 <= 2,
    ensures
        until_scan(bytes, pos, 0, out, close) == until_scan(
            bytes,
            pos + p.len(),
            until_run(p).0,
            out + until_run(p).1,
            close,
        ),
    decreases p.len(),
{
    if p.len() == 0 {
        assert(out + Seq::<u8>::empty() =~= out);
    } else {
        let q = p.drop_last();
        lemma_until_run_bound(q);
        assert(bytes.subrange(pos, pos + q.len()) =~= q);
        lemma_until_scan_prefix(bytes, pos, q, out, close);
        assert(bytes[pos + q.len()] == p.last());
        let (s, o) = until_run(q);
        match spec_until_step(s, p.last()) {
            UntilStep::Pending(t, e) => {
                assert(out + o + e =~= out + (o + e));
            },
            _ => {},
        }
    }
}

/// Bytes without a zero hold no sentinel.
pub proof fn lemma_until_run_no_zero(p: Seq<u8>)
    requires
        forall|i: int| 0 <= i < p.len() ==> #[trigger] p[i] != 0,
    ensures
        frames_cleanly(p),
{
    assert forall|i: int| !#[trigger] sentinel_at(p, i) by {
        if sentinel_at(p, i) {
            assert(p[i] == 0);
        }
    }
}

/// A payload without a sentinel, followed by the marker `close`, is read
/// back exactly, stopping right after the marker.
pub proof fn lemma_read_until_roundtrip(p: Seq<u8>, close: FrameType, rest: Seq<u8>)
    requires
        frames_cleanly(p),
    ensures
        until_scan(p + marker_bytes(close) + rest, 0, 0, Seq::empty(), close) == Ok::<
            (Seq<u8>, int),
            WireError,
        >((p, p.len() + 4int)),
{
    let bytes = p + marker_bytes(close) + rest;
    let n = p.len() as int;
    assert(bytes.subrange(0, n) =~= p);
    lemma_until_run_clean(p);
    lemma_until_scan_prefix(bytes, 0, p, Seq::empty(), close);
    lemma_until_run_accounts(p);
    lemma_frame_code_roundtrip(close);
    let (s, o) = until_run(p);
    assert(bytes[n] == 0 && bytes[n + 1] == 0 && bytes[n + 2] == 1 && bytes[n + 3] == frame_code(
        close,
    ));
    assert(Seq::<u8>::empty() + o =~= o);
    assert(until_scan(bytes, n + 3, 3, p, close) == Ok::<(Seq<u8>, int), WireError>((p, n + 4)));
    assert(until_scan(bytes, n + 2, 2, p, close) == until_scan(bytes, n + 3, 3, p, close));
    assert(until_scan(bytes, n + 1, 1, p, close) == until_scan(bytes, n + 2, 2, p, close)) by {
        assert(p + Seq::<u8>::empty() =~= p);
    }
    if s == 0 {
        assert(o =~= p);
        assert(held_zeros(0) =~= Seq::<u8>::empty());
        assert(until_scan(bytes, n, 0, p, close) == until_scan(bytes, n + 1, 1, p, close)) by {
            assert(p + Seq::<u8>::empty() =~= p);
        }
    } else if s == 1 {
        assert(held_zeros(1) =~= seq![0u8]);
        assert(o + held_zeros(1) =~= p);
        assert(until_scan(bytes, n + 1, 2, o, close) == until_scan(bytes, n + 2, 2, p, close));
        assert(until_scan(bytes, n, 1, o, close) == until_scan(bytes, n + 1, 2, o, close)) by {
            assert(o + Seq::<u8>::empty() =~= o);
        }
    } else {
        assert(held_zeros(1) =~= seq![0u8]);
        assert(held_zeros(2) =~= seq![0u8, 0u8]);
        assert(o + held_zeros(2) =~= p);
        let o1 = o + held_zeros(1);
        assert(o1 + held_zeros(1) =~= p);
        assert(until_scan(bytes, n + 1, 2, o1, close) == until_scan(bytes, n + 2, 2, p, close));
        assert(until_scan(bytes, n, 2, o, close) == until_scan(bytes, n + 1, 2, o1, close));
    }
}

/// The payload reader stops at the first sentinel: with `i` the least
/// index where `0x00 0x00 0x01` stands, the bytes before it are the
/// payload and exactly `i + 4` bytes are consumed when the byte after the
/// sentinel names `close`; another frame type there is a nesting
/// violation and an unknown one an error; when the input ends before a
/// complete marker (no sentinel, or nothing after it) the reader reports
/// the end of input.
pub proof fn lemma_read_until_first_sentinel(bytes: Seq<u8>, i: int, close: FrameType)
    requires
        sentinel_at(bytes, i) || (i == bytes.len() && forall|j: int| !#[trigger] sentinel_at(bytes, j)),
        forall|j: int| j < i ==> !#[trigger] sentinel_at(bytes, j),
    ensures
        until_scan(bytes, 0, 0, Seq::empty(), close) == if i + 3 < bytes.len() {
            match frame_of_code(bytes[i + 3]) {
                Some(t) => if t == close {
                    Ok::<(Seq<u8>, int), WireError>((bytes.take(i), i + 4))
                } else {
                    Err(WireError::NestedMarker { close, got: t })
                },
                None => Err(WireError::UnknownFrameType(bytes[i + 3])),
            }
        } else {
            Err(WireError::UnexpectedEof)
        },
{
    let g = bytes.take(i);
    assert forall|j: int| !#[trigger] sentinel_at(g, j) by {
        if sentinel_at(g, j) {
            assert(sentinel_at(bytes, j));
        }
    }
    lemma_until_run_clean(g);
    assert(bytes.subrange(0, i) =~= g);
    lemma_until_scan_prefix(bytes, 0, g, Seq::empty(), close);
    lemma_until_run_accounts(g);
    let (s, o) = until_run(g);
    assert(Seq::<u8>::empty() + o =~= o);
    if i < bytes.len() {
        assert(bytes[i] == 0 && bytes[i + 1] == 0 && bytes[i + 2] == 1);
        assert(until_scan(bytes, i + 2, 2, g, close) == until_scan(bytes, i + 3, 3, g, close)) by {
            assert(g + Seq::<u8>::empty() =~= g);
        }
        assert(until_scan(bytes, i + 1, 1, g, close) == until_scan(bytes, i + 2, 2, g, close)) by {
            assert(g + Seq::<u8>::empty() =~= g);
        }
        if s == 0 {
            assert(held_zeros(0) =~= Seq::<u8>::empty());
            assert(o =~= g);
            assert(until_scan(bytes, i, 0, g, close) == until_scan(bytes, i + 1, 1, g, close)) by {
                assert(g + Seq::<u8>::empty() =~= g);
            }
        } else if s == 1 {
            assert(held_zeros(1) =~= seq![0u8]);
            assert(o + held_zeros(1) =~= g);
            assert(until_scan(bytes, i + 1, 2, o, close) == until_scan(bytes, i + 2, 2, g, close));
            assert(until_scan(bytes, i, 1, o, close) == until_scan(bytes, i + 1, 2, o, close)) by {
                assert(o + Seq::<u8>::empty() =~= o);
            }
        } else {
            assert(held_zeros(1) =~= seq![0u8]);
            assert(held_zeros(2) =~= seq![0u8, 0u8]);
            assert(o + held_zeros(2) =~= g);
            let o1 = o + held_zeros(1);
            assert(o1 + held_zeros(1) =~= g);
            assert(until_scan(bytes, i + 1, 2, o1, close) == until_scan(bytes, i + 2, 2, g, close));
            assert(until_scan(bytes, i, 2, o, close) == until_scan(bytes, i + 1, 2, o1, close));
        }
    }
}

/// What `write_string_frame` writes, `read_string_frame` reads back:
/// for every payload without a sentinel `0x00 0x00 0x01` (zero bytes
/// and runs of them included), the frame yields the payload and ends
/// after the close marker.
pub proof fn lemma_string_frame_roundtrip(p: Seq<u8>, rest: Seq<u8>)
    requires
        frames_cleanly(p),
    ensures
        string_frame_at(
            marker_bytes(FrameType::StringStart) + p + marker_bytes(FrameType::StringEnd) + rest,
            0,
        ) == Ok::<(Seq<u8>, int), WireError>((p, p.len() + 8int)),
{
    let tail = p + marker_bytes(FrameType::StringEnd) + rest;
    let bytes = marker_bytes(FrameType::StringStart) + p + marker_bytes(FrameType::StringEnd) + rest;
    assert(bytes =~= marker_bytes(FrameType::StringStart) + tail);
    lemma_marker_roundtrip(FrameType::StringStart, tail);
    lemma_read_until_roundtrip(p, FrameType::StringEnd, rest);
    assert(bytes.subrange(4, bytes.len() as int) =~= tail);
    lemma_until_scan_shift(marker_bytes(FrameType::StringStart), tail, FrameType::StringEnd);
}

/// Scanning is unaffected by bytes before the scan position.
proof fn lemma_until_scan_shift(pre: Seq<u8>, tail: Seq<u8>, close: FrameType)
    ensures
        until_scan(pre + tail, pre.len() as int, 0, Seq::empty(), close) == (match until_scan(
            tail,
            0,
            0,
            Seq::empty(),
            close,
        ) {
            Ok((o, p)) => Ok((o, p + pre.len())),
            Err(e) => Err(e),
        }),
{
    lemma_until_scan_shift_gen(pre, tail, 0, 0, Seq::empty(), close);
}

/// Payload scanning is unaffected by bytes before the scan position.
pub proof fn lemma_until_scan_shift_gen(
    pre: Seq<u8>,
    tail: Seq<u8>,
    pos: int,
    state: u8,
    out: Seq<u8>,
    close: FrameType,
)
    requires
        0 <= pos,
    ensures
        until_scan(pre + tail, pre.len() + pos, state, out, close) == (match until_scan(
            tail,
            pos,
            state,
            out,
            close,
        ) {
            Ok((o, p)) => Ok((o, p + pre.len())),
            Err(e) => Err(e),
        }),
    decreases tail.len() - pos,
{
    if pos < tail.len() {
        assert((pre + tail)[pre.len() + pos] == tail[pos]);
        match spec_until_step(state, tail[pos]) {
            UntilStep::Pending(s, e) => {
                lemma_until_scan_shift_gen(pre, tail, pos + 1, s, out + e, close);
            },
            _ => {},
        }
    }
}

/// Marker scanning is unaffected by bytes before the scan position.
pub proof fn lemma_marker_scan_shift(pre: Seq<u8>, tail: Seq<u8>, pos: int, state: u8)
    requires
        0 <= pos,
    ensures
        marker_scan(pre + tail, pre.len() + pos, state) == (match marker_scan(tail, pos, state) {
            Ok((t, p)) => Ok((t, p + pre.len())),
            Err(e) => Err(e),
        }),
    decreases tail.len() - pos,
{
    if pos < tail.len() {
        assert((pre + tail)[pre.len() + pos] == tail[pos]);
        match spec_marker_step(state, tail[pos]) {
            MarkerScan::Pending(s) => {
                lemma_marker_scan_shift(pre, tail, pos + 1, s);
            },
            _ => {},
        }
    }
}

} // verus!
