//! The `command_getbytes` callback: the decompiler asks for raw program
//! memory at a virtual address.
//!
//! The request is a PackedEncode document carrying an address space, an
//! offset and a size. The answer is a `query_response` frame holding the
//! bytes in a `byte_start` / `byte_end` frame, A-P encoded; when the
//! loader cannot serve the read (unmapped, a gap, an empty or oversized
//! request), the `query_response` frame is empty.
//!
//! Until the element/attribute name registry exists, the request is
//! matched structurally: the first address-space attribute is the
//! space, the first unsigned integer the offset, the second the size;
//! element records are ignored. The space is parsed but not used, since
//! x86_64 ELF has one addressable space.

use vstd::prelude::*;
use crate::decomp::loader::{spec_read, ElfLoader};
use crate::decomp::nibble::{
    encode_into, lemma_decode_encode, lemma_encode_chars, spec_decode_result, spec_encode,
    NibbleError,
};
use crate::decomp::packed::{
    decode_from, lemma_next_at_advances, next_at, AttrVal, AttrValue, DecodeError, Decoder, Event,
    EventVal,
};
use crate::decomp::wire::{
    lemma_marker_roundtrip, lemma_marker_scan_shift, lemma_read_until_roundtrip,
    lemma_until_run_no_zero, lemma_until_scan_shift_gen, marker_bytes, marker_scan, until_scan,
    write_marker, FrameType, WireError,
};

verus! {

/// Largest read served: 1 MiB, far above any legitimate decompiler
/// request, so a buggy request cannot make the host allocate gigabytes.
pub const MAX_GETBYTES_LEN: u64 = 0x10_0000;

/// The contents of a `command_getbytes` request.
#[derive(Debug, Clone, Copy, PartialEq, Eq)]
pub struct GetBytesRequest {
    /// Address-space index (not used yet).
    pub space: u32,
    /// Virtual byte offset within the address space.
    pub offset: u64,
    /// Number of bytes wanted.
    pub size: u64,
}

/// Why a request payload could not be understood.
#[derive(Debug, Clone, Copy, PartialEq, Eq)]
pub enum RequestError {
    /// The PackedEncode stream is malformed.
    Decode(DecodeError),
    /// No address-space attribute.
    MissingSpace,
    /// No first unsigned integer attribute.
    MissingOffset,
    /// No second unsigned integer attribute.
    MissingSize,
}

/// Scanning the records from `pos` for the missing parts of a request,
/// having found `space`, `offset` and `size` so far.
pub open spec fn scan_request(
    bytes: Seq<u8>,
    pos: int,
    space: Option<u32>,
    offset: Option<u64>,
    size: Option<u64>,
) -> Result<GetBytesRequest, RequestError>
    decreases bytes.len() - pos,
{
    if space is Some && offset is Some && size is Some {
        Ok(GetBytesRequest { space: space->0, offset: offset->0, size: size->0 })
    } else {
        match next_at(bytes, pos) {
            Err(e) => Err(RequestError::Decode(e)),
            Ok(None) => if space is None {
                Err(RequestError::MissingSpace)
            } else if offset is None {
                Err(RequestError::MissingOffset)
            } else {
                Err(RequestError::MissingSize)
            },
            Ok(Some((ev, p))) => if pos < p <= bytes.len() {
                match ev {
                    EventVal::Attribute(_, AttrVal::AddressSpace(sp)) => if space is None {
                        scan_request(bytes, p, Some(sp), offset, size)
                    } else {
                        scan_request(bytes, p, space, offset, size)
                    },
                    EventVal::Attribute(_, AttrVal::UnsignedInt(v)) => if offset is None {
                        scan_request(bytes, p, space, Some(v), size)
                    } else if size is None {
                        scan_request(bytes, p, space, offset, Some(v))
                    } else {
                        scan_request(bytes, p, space, offset, size)
                    },
                    _ => scan_request(bytes, p, space, offset, size),
                }
            } else {
                Err(RequestError::Decode(DecodeError::UnexpectedEof))
            },
        }
    }
}

/// What a request made of the records `evs` asks for, having found
/// `space`, `offset` and `size` so far: the first address-space
/// attribute is the space, the first unsigned integer the offset, the
/// second the size.
pub open spec fn events_request(
    evs: Seq<EventVal>,
    space: Option<u32>,
    offset: Option<u64>,
    size: Option<u64>,
) -> Result<GetBytesRequest, RequestError>
    decreases evs.len(),
{
    if space is Some && offset is Some && size is Some {
        Ok(GetBytesRequest { space: space->0, offset: offset->0, size: size->0 })
    } else if evs.len() == 0 {
        if space is None {
            Err(RequestError::MissingSpace)
        } else if offset is None {
            Err(RequestError::MissingOffset)
        } else {
            Err(RequestError::MissingSize)
        }
    } else {
        match evs[0] {
            EventVal::Attribute(_, AttrVal::AddressSpace(sp)) => if space is None {
                events_request(evs.drop_first(), Some(sp), offset, size)
            } else {
                events_request(evs.drop_first(), space, offset, size)
            },
            EventVal::Attribute(_, AttrVal::UnsignedInt(v)) => if offset is None {
                events_request(evs.drop_first(), space, Some(v), size)
            } else if size is None {
                events_request(evs.drop_first(), space, offset, Some(v))
            } else {
                events_request(evs.drop_first(), space, offset, size)
            },
            _ => events_request(evs.drop_first(), space, offset, size),
        }
    }
}

/// How many address-space attributes `evs` holds.
pub open spec fn space_count(evs: Seq<EventVal>) -> nat
    decreases evs.len(),
{
    if evs.len() == 0 {
        0
    } else {
        (if evs[0] matches EventVal::Attribute(_, AttrVal::AddressSpace(_)) { 1nat } else { 0nat })
            + space_count(evs.drop_first())
    }
}

/// How many unsigned integer attributes `evs` holds.
pub open spec fn uint_count(evs: Seq<EventVal>) -> nat
    decreases evs.len(),
{
    if evs.len() == 0 {
        0
    } else {
        (if evs[0] matches EventVal::Attribute(_, AttrVal::UnsignedInt(_)) { 1nat } else { 0nat })
            + uint_count(evs.drop_first())
    }
}

proof fn lemma_scan_request_events(
    bytes: Seq<u8>,
    pos: int,
    evs: Seq<EventVal>,
    space: Option<u32>,
    offset: Option<u64>,
    size: Option<u64>,
)
    requires
        decode_from(bytes, pos) == Ok::<Seq<EventVal>, DecodeError>(evs),
    ensures
        scan_request(bytes, pos, space, offset, size) == events_request(evs, space, offset, size),
    decreases bytes.len() - pos,
{
    if !(space is Some && offset is Some && size is Some) {
        if let Ok(Some((ev, p))) = next_at(bytes, pos) {
            let rest = decode_from(bytes, p)->Ok_0;
            assert(evs[0] == ev);
            assert(evs.drop_first() =~= rest);
            match ev {
                EventVal::Attribute(_, AttrVal::AddressSpace(sp)) => {
                    if space is None {
                        lemma_scan_request_events(bytes, p, rest, Some(sp), offset, size);
                    } else {
                        lemma_scan_request_events(bytes, p, rest, space, offset, size);
                    }
                },
                EventVal::Attribute(_, AttrVal::UnsignedInt(v)) => {
                    if offset is None {
                        lemma_scan_request_events(bytes, p, rest, space, Some(v), size);
                    } else if size is None {
                        lemma_scan_request_events(bytes, p, rest, space, offset, Some(v));
                    } else {
                        lemma_scan_request_events(bytes, p, rest, space, offset, size);
                    }
                },
                _ => {
                    lemma_scan_request_events(bytes, p, rest, space, offset, size);
                },
            }
        }
    }
}

proof fn lemma_events_request_parts(
    evs: Seq<EventVal>,
    space: Option<u32>,
    offset: Option<u64>,
    size: Option<u64>,
)
    requires
        size is Some ==> offset is Some,
    ensures
        ({
            let found_space = space is Some || space_count(evs) > 0;
            let ints = (if offset is Some { 1nat } else { 0nat }) + (if size is Some { 1nat } else { 0nat })
                + uint_count(evs);
            &&& events_request(evs, space, offset, size) is Ok <==> found_space && ints >= 2
            &&& !found_space ==> events_request(evs, space, offset, size)
                == Err::<GetBytesRequest, RequestError>(RequestError::MissingSpace)
            &&& found_space && ints == 0 ==> events_request(evs, space, offset, size)
                == Err::<GetBytesRequest, RequestError>(RequestError::MissingOffset)
            &&& found_space && ints == 1 ==> events_request(evs, space, offset, size)
                == Err::<GetBytesRequest, RequestError>(RequestError::MissingSize)
        }),
    decreases evs.len(),
{
    if evs.len() > 0 {
        let rest = evs.drop_first();
        match evs[0] {
            EventVal::Attribute(_, AttrVal::AddressSpace(sp)) => {
                if space is None {
                    lemma_events_request_parts(rest, Some(sp), offset, size);
                } else {
                    lemma_events_request_parts(rest, space, offset, size);
                }
            },
            EventVal::Attribute(_, AttrVal::UnsignedInt(v)) => {
                if offset is None {
                    lemma_events_request_parts(rest, space, Some(v), size);
                } else if size is None {
                    lemma_events_request_parts(rest, space, offset, Some(v));
                } else {
                    lemma_events_request_parts(rest, space, offset, size);
                }
            },
            _ => {
                lemma_events_request_parts(rest, space, offset, size);
            },
        }
    }
}

/// A request is understood exactly when its records hold an
/// address-space attribute and at least two unsigned integers: on a
/// payload that decodes to the records `evs`, the request is the first
/// space, the first unsigned integer and the second; without a space the
/// parse fails with `MissingSpace`, with a space but no integer with
/// `MissingOffset`, with a space and one integer with `MissingSize`, and
/// `handle_getbytes` then writes nothing.
pub proof fn lemma_request_needs_space_offset_size(payload: Seq<u8>, evs: Seq<EventVal>)
    requires
        decode_from(payload, 0) == Ok::<Seq<EventVal>, DecodeError>(evs),
    ensures
        spec_parse_request(payload) == events_request(evs, None, None, None),
        spec_parse_request(payload) is Ok <==> space_count(evs) > 0 && uint_count(evs) >= 2,
        space_count(evs) == 0 ==> spec_parse_request(payload) == Err::<GetBytesRequest, RequestError>(
            RequestError::MissingSpace,
        ),
        space_count(evs) > 0 && uint_count(evs) == 0 ==> spec_parse_request(payload) == Err::<
            GetBytesRequest,
            RequestError,
        >(RequestError::MissingOffset),
        space_count(evs) > 0 && uint_count(evs) == 1 ==> spec_parse_request(payload) == Err::<
            GetBytesRequest,
            RequestError,
        >(RequestError::MissingSize),
{
    lemma_scan_request_events(payload, 0, evs, None, None, None);
    lemma_events_request_parts(evs, None, None, None);
}

/// What a request payload asks for.
pub open spec fn spec_parse_request(payload: Seq<u8>) -> Result<GetBytesRequest, RequestError> {
    scan_request(payload, 0, None, None, None)
}

/// Reads the space / offset / size out of a request payload.
pub fn parse_request(payload: &[u8]) -> (r: Result<GetBytesRequest, RequestError>)
    ensures
        r == spec_parse_request(payload@),
{
    let mut dec = Decoder::new(payload);
    let mut space: Option<u32> = None;
    let mut offset: Option<u64> = None;
    let mut size: Option<u64> = None;
    loop
        invariant
            dec.input() == payload@,
            0 <= dec.cursor() <= payload@.len(),
            spec_parse_request(payload@) == scan_request(payload@, dec.cursor(), space, offset, size),
        ensures
            space is Some && offset is Some && size is Some,
            spec_parse_request(payload@) == scan_request(payload@, dec.cursor(), space, offset, size),
        decreases payload@.len() - dec.cursor(),
    {
        if space.is_some() && offset.is_some() && size.is_some() {
            break;
        }
        proof {
            lemma_next_at_advances(payload@, dec.cursor());
        }
        let ev = match dec.next_event() {
            Err(e) => return Err(RequestError::Decode(e)),
            Ok(None) => {
                if space.is_none() {
                    return Err(RequestError::MissingSpace);
                } else if offset.is_none() {
                    return Err(RequestError::MissingOffset);
                } else {
                    return Err(RequestError::MissingSize);
                }
            },
            Ok(Some(ev)) => ev,
        };
        if let Event::Attribute { value, .. } = ev {
            match value {
                AttrValue::AddressSpace(sp) => {
                    if space.is_none() {
                        space = Some(sp);
                    }
                },
                AttrValue::UnsignedInt(v) => {
                    if offset.is_none() {
                        offset = Some(v);
                    } else if size.is_none() {
                        size = Some(v);
                    }
                },
                _ => {},
            }
        }
    }
    match (space, offset, size) {
        (Some(sp), Some(off), Some(sz)) => Ok(GetBytesRequest { space: sp, offset: off, size: sz }),
        _ => Err(RequestError::MissingSize),
    }
}

/// The bytes the loader serves for a request, or `None` for "no data":
/// an empty or oversized request, or a read the loader refuses.
pub open spec fn served_bytes(image: Seq<u8>, segs: Seq<crate::decomp::loader::Segment>, req: GetBytesRequest) -> Option<Seq<u8>> {
    if req.size == 0 || req.size > MAX_GETBYTES_LEN {
        None
    } else {
        match spec_read(image, segs, req.offset, req.size as usize) {
            Ok(b) => Some(b),
            Err(_) => None,
        }
    }
}

/// The response frames: a `query_response` frame holding, when there
/// are bytes, a `byte_start` / `byte_end` frame of their A-P encoding.
pub open spec fn response_bytes(served: Option<Seq<u8>>) -> Seq<u8> {
    match served {
        Some(b) => marker_bytes(FrameType::QueryResponseStart) + marker_bytes(FrameType::ByteStart)
            + spec_encode(b) + marker_bytes(FrameType::ByteEnd) + marker_bytes(
            FrameType::QueryResponseEnd,
        ),
        None => marker_bytes(FrameType::QueryResponseStart) + marker_bytes(
            FrameType::QueryResponseEnd,
        ),
    }
}

/// Answers a `command_getbytes` query.
///
/// A payload that cannot be parsed is the only error, and nothing is
/// written then. Otherwise the response frames are appended to `out`; a
/// read the loader cannot serve gives the empty response, not an error.
pub fn handle_getbytes(loader: &ElfLoader, request_payload: &[u8], out: &mut Vec<u8>) -> (r: Result<(), RequestError>)
    ensures
        match spec_parse_request(request_payload@) {
            Err(e) => r == Err::<(), RequestError>(e) && final(out)@ == old(out)@,
            Ok(req) => r is Ok && final(out)@ == old(out)@ + response_bytes(
                served_bytes(loader.image(), loader.spec_segments(), req),
            ),
        },
{
    let req = match parse_request(request_payload) {
        Ok(req) => req,
        Err(e) => return Err(e),
    };
    let ghost start = out@;
    let _ = write_marker(out, FrameType::QueryResponseStart);
    if req.size != 0 && req.size <= MAX_GETBYTES_LEN {
        match loader.read_bytes(req.offset, req.size as usize) {
            Ok(bytes) => {
                let _ = write_marker(out, FrameType::ByteStart);
                encode_into(bytes.as_slice(), out);
                let _ = write_marker(out, FrameType::ByteEnd);
            },
            Err(_) => {},
        }
    }
    let _ = write_marker(out, FrameType::QueryResponseEnd);
    assert(out@ =~= start + response_bytes(served_bytes(loader.image(), loader.spec_segments(), req)));
    Ok(())
}

/// A response with bytes reads back, through the frame and nibble
/// layers, as those very bytes: the `query_response_start` marker, the
/// `byte_start` marker, an A-P payload up to `byte_end` that decodes to
/// the bytes, and the `query_response_end` marker, in that order and
/// nothing else.
pub proof fn lemma_response_roundtrip(b: Seq<u8>)
    ensures
        ({
            let resp = response_bytes(Some(b));
            let enc = spec_encode(b);
            let n = enc.len() as int;
            &&& resp.len() == 16 + n
            &&& marker_scan(resp, 0, 0) == Ok::<(FrameType, int), WireError>(
                (FrameType::QueryResponseStart, 4),
            )
            &&& marker_scan(resp, 4, 0) == Ok::<(FrameType, int), WireError>(
                (FrameType::ByteStart, 8),
            )
            &&& until_scan(resp, 8, 0, Seq::empty(), FrameType::ByteEnd) == Ok::<
                (Seq<u8>, int),
                WireError,
            >((enc, 12 + n))
            &&& spec_decode_result(enc) == Ok::<Seq<u8>, NibbleError>(b)
            &&& marker_scan(resp, 12 + n, 0) == Ok::<(FrameType, int), WireError>(
                (FrameType::QueryResponseEnd, 16 + n),
            )
        }),
{
    let resp = response_bytes(Some(b));
    let enc = spec_encode(b);
    let n = enc.len() as int;
    let m_qrs = marker_bytes(FrameType::QueryResponseStart);
    let m_bs = marker_bytes(FrameType::ByteStart);
    let m_be = marker_bytes(FrameType::ByteEnd);
    let m_qre = marker_bytes(FrameType::QueryResponseEnd);
    lemma_encode_chars(b);
    assert(resp.len() == 16 + n);
    assert(marker_scan(resp, 0, 0) == Ok::<(FrameType, int), WireError>(
        (FrameType::QueryResponseStart, 4),
    )) by {
        let t1 = m_bs + enc + m_be + m_qre;
        assert(resp =~= m_qrs + t1);
        lemma_marker_roundtrip(FrameType::QueryResponseStart, t1);
    }
    assert(marker_scan(resp, 4, 0) == Ok::<(FrameType, int), WireError>((FrameType::ByteStart, 8)))
        by {
        let t2 = enc + m_be + m_qre;
        assert(resp =~= m_qrs + (m_bs + t2));
        lemma_marker_roundtrip(FrameType::ByteStart, t2);
        lemma_marker_scan_shift(m_qrs, m_bs + t2, 0, 0);
    }
    assert(until_scan(resp, 8, 0, Seq::empty(), FrameType::ByteEnd) == Ok::<
        (Seq<u8>, int),
        WireError,
    >((enc, 12 + n))) by {
        let p3 = m_qrs + m_bs;
        assert(resp =~= p3 + (enc + m_be + m_qre));
        assert forall|i: int| 0 <= i < enc.len() implies #[trigger] enc[i] != 0 by {
            assert(crate::decomp::nibble::is_nibble_char(enc[i]));
        }
        lemma_until_run_no_zero(enc);
        lemma_read_until_roundtrip(enc, FrameType::ByteEnd, m_qre);
        lemma_until_scan_shift_gen(p3, enc + m_be + m_qre, 0, 0, Seq::empty(), FrameType::ByteEnd);
    }
    lemma_decode_encode(b);
    assert(marker_scan(resp, 12 + n, 0) == Ok::<(FrameType, int), WireError>(
        (FrameType::QueryResponseEnd, 16 + n),
    )) by {
        let p4 = m_qrs + m_bs + enc + m_be;
        assert(resp =~= p4 + (m_qre + Seq::<u8>::empty()));
        lemma_marker_roundtrip(FrameType::QueryResponseEnd, Seq::empty());
        lemma_marker_scan_shift(p4, m_qre + Seq::<u8>::empty(), 0, 0);
    }
}

/// An empty response reads back as the two `query_response` markers.
pub proof fn lemma_empty_response_roundtrip()
    ensures
        marker_scan(response_bytes(None), 0, 0) == Ok::<(FrameType, int), WireError>(
            (FrameType::QueryResponseStart, 4),
        ),
        marker_scan(response_bytes(None), 4, 0) == Ok::<(FrameType, int), WireError>(
            (FrameType::QueryResponseEnd, 8),
        ),
        response_bytes(None).len() == 8,
{
    let m_qrs = marker_bytes(FrameType::QueryResponseStart);
    let m_qre = marker_bytes(FrameType::QueryResponseEnd);
    lemma_marker_roundtrip(FrameType::QueryResponseStart, m_qre);
    assert(response_bytes(None) =~= m_qrs + (m_qre + Seq::<u8>::empty()));
    lemma_marker_roundtrip(FrameType::QueryResponseEnd, Seq::empty());
    lemma_marker_scan_shift(m_qrs, m_qre + Seq::<u8>::empty(), 0, 0);
}

} // verus!
