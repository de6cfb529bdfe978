use ghidra_cli::decomp::callback::getbytes::{handle_getbytes, parse_request, GetBytesRequest, RequestError};
use ghidra_cli::decomp::loader::{Architecture, ElfLoader, LoaderError, PF_R, PF_W, PF_X, PT_LOAD};
use ghidra_cli::decomp::nibble;
use ghidra_cli::decomp::packed::Encoder;
use ghidra_cli::decomp::wire::{read_marker, read_until_marker, Cursor, FrameType, WireError};

const EI_NIDENT: usize = 16;
const ELF_HEADER_SIZE: usize = 64;
const PROGRAM_HEADER_SIZE: usize = 56;
const ET_EXEC: u16 = 2;
const EM_X86_64: u16 = 62;

struct SegSpec {
    vaddr: u64,
    memsz: u64,
    file_data: Vec<u8>,
    perms: u32,
}

fn build_elf(entry: u64, segments: &[SegSpec]) -> (Vec<u8>, Vec<u64>) {
    let phdrs_offset = ELF_HEADER_SIZE;
    let phdrs_size = PROGRAM_HEADER_SIZE * segments.len();
    let mut cursor = (phdrs_offset + phdrs_size) as u64;
    let mut seg_offsets = Vec::with_capacity(segments.len());
    for s in segments {
        seg_offsets.push(cursor);
        cursor += s.file_data.len() as u64;
    }
    let total_size = cursor as usize;
    let mut image = vec![0u8; total_size];

    image[0..4].copy_from_slice(&[0x7f, b'E', b'L', b'F']);
    image[4] = 2;
    image[5] = 1;
    image[6] = 1;
    let mut off = EI_NIDENT;
    image[off..off + 2].copy_from_slice(&ET_EXEC.to_le_bytes());
    off += 2;
    image[off..off + 2].copy_from_slice(&EM_X86_64.to_le_bytes());
    off += 2;
    image[off..off + 4].copy_from_slice(&1u32.to_le_bytes());
    off += 4;
    image[off..off + 8].copy_from_slice(&entry.to_le_bytes());
    off += 8;
    image[off..off + 8].copy_from_slice(&(phdrs_offset as u64).to_le_bytes());
    off += 8;
    image[off..off + 8].copy_from_slice(&0u64.to_le_bytes());
    off += 8;
    image[off..off + 4].copy_from_slice(&0u32.to_le_bytes());
    off += 4;
    image[off..off + 2].copy_from_slice(&(ELF_HEADER_SIZE as u16).to_le_bytes());
    off += 2;
    image[off..off + 2].copy_from_slice(&(PROGRAM_HEADER_SIZE as u16).to_le_bytes());
    off += 2;
    image[off..off + 2].copy_from_slice(&(segments.len() as u16).to_le_bytes());
    off += 2;
    let _ = off;

    for (i, s) in segments.iter().enumerate() {
        let base = phdrs_offset + i * PROGRAM_HEADER_SIZE;
        image[base..base + 4].copy_from_slice(&PT_LOAD.to_le_bytes());
        image[base + 4..base + 8].copy_from_slice(&s.perms.to_le_bytes());
        image[base + 8..base + 16].copy_from_slice(&seg_offsets[i].to_le_bytes());
        image[base + 16..base + 24].copy_from_slice(&s.vaddr.to_le_bytes());
        image[base + 24..base + 32].copy_from_slice(&s.vaddr.to_le_bytes());
        image[base + 32..base + 40].copy_from_slice(&(s.file_data.len() as u64).to_le_bytes());
        image[base + 40..base + 48].copy_from_slice(&s.memsz.to_le_bytes());
        image[base + 48..base + 56].copy_from_slice(&0x1000u64.to_le_bytes());
    }
    for (i, s) in segments.iter().enumerate() {
        let start = seg_offsets[i] as usize;
        image[start..start + s.file_data.len()].copy_from_slice(&s.file_data);
    }
    (image, seg_offsets)
}

/// One LOAD segment covering `vaddr` for `file_data.len()` bytes.
fn build_simple_elf(vaddr: u64, file_data: Vec<u8>) -> Vec<u8> {
    let memsz = file_data.len() as u64;
    build_elf(vaddr, &[SegSpec { vaddr, memsz, file_data, perms: PF_R | PF_X }]).0
}

fn make_request(space: u32, offset: u64, size: u64) -> Vec<u8> {
    let mut e = Encoder::new();
    e.open_element(1);
    e.open_element(2);
    e.attribute_address_space(3, space);
    e.attribute_unsigned_int(4, offset);
    e.close_element(2);
    e.attribute_unsigned_int(5, size);
    e.close_element(1);
    e.finish()
}

#[derive(Debug)]
enum ResponseError {
    Wire(WireError),
    Nibble(nibble::NibbleError),
}

fn read_response(cursor: &mut Cursor) -> Result<Option<Vec<u8>>, ResponseError> {
    let m = read_marker(cursor).map_err(ResponseError::Wire)?;
    assert_eq!(m, FrameType::QueryResponseStart);
    let inner = read_marker(cursor).map_err(ResponseError::Wire)?;
    match inner {
        FrameType::QueryResponseEnd => Ok(None),
        FrameType::ByteStart => {
            let raw = read_until_marker(cursor, FrameType::ByteEnd).map_err(ResponseError::Wire)?;
            let decoded = nibble::decode(&raw).map_err(ResponseError::Nibble)?;
            let close = read_marker(cursor).map_err(ResponseError::Wire)?;
            assert_eq!(close, FrameType::QueryResponseEnd);
            Ok(Some(decoded))
        }
        other => panic!("unexpected marker inside query_response: {other:?}"),
    }
}

// ---- getbytes ---------------------------------------------------------

#[test]
fn well_formed_request_returns_byte_frame() {
    let body: Vec<u8> = (0..64u32).map(|x| x as u8).collect();
    let image = build_simple_elf(0x40_0000, body.clone());
    let loader = ElfLoader::from_bytes(image).unwrap();
    let req = make_request(0, 0x40_0010, 8);
    let mut out = Vec::new();
    handle_getbytes(&loader, &req, &mut out).unwrap();
    let mut cur = Cursor::new(out);
    let payload = read_response(&mut cur).unwrap();
    assert_eq!(payload, Some(body[0x10..0x18].to_vec()));
}

#[test]
fn unmapped_request_emits_empty_response() {
    let image = build_simple_elf(0x40_0000, vec![0xCC; 0x100]);
    let loader = ElfLoader::from_bytes(image).unwrap();
    let req = make_request(0, 0x9000_0000, 4);
    let mut out = Vec::new();
    handle_getbytes(&loader, &req, &mut out).unwrap();
    let mut cur = Cursor::new(out);
    assert_eq!(read_response(&mut cur).unwrap(), None);
}

#[test]
fn loader_error_does_not_propagate() {
    let image = build_simple_elf(0x40_0000, vec![0xAA; 0x10]);
    let loader = ElfLoader::from_bytes(image).unwrap();
    let req = make_request(0, 0x40_0008, 0x100);
    let mut out = Vec::new();
    let res = handle_getbytes(&loader, &req, &mut out);
    assert!(res.is_ok());
    let mut cur = Cursor::new(out);
    assert_eq!(read_response(&mut cur).unwrap(), None);
}

#[test]
fn output_round_trips_through_wire_and_nibble_layers() {
    let body: Vec<u8> = (0..200u32).map(|x| (x as u8).wrapping_mul(7)).collect();
    let image = build_simple_elf(0x80_0000, body.clone());
    let loader = ElfLoader::from_bytes(image).unwrap();
    let req = make_request(0, 0x80_0000 + 5, 32);
    let mut out = Vec::new();
    handle_getbytes(&loader, &req, &mut out).unwrap();
    let mut cur = Cursor::new(out);
    let payload = read_response(&mut cur).unwrap().expect("byte frame present");
    assert_eq!(payload, body[5..37]);
}

#[test]
fn output_never_embeds_frame_sentinel() {
    let body: Vec<u8> = (0u8..=255).collect();
    let image = build_simple_elf(0x10_0000, body);
    let loader = ElfLoader::from_bytes(image).unwrap();
    let req = make_request(0, 0x10_0000, 256);
    let mut out = Vec::new();
    handle_getbytes(&loader, &req, &mut out).unwrap();

    let markers: &[[u8; 4]] = &[
        [0, 0, 1, FrameType::QueryResponseStart.code()],
        [0, 0, 1, FrameType::ByteStart.code()],
        [0, 0, 1, FrameType::ByteEnd.code()],
        [0, 0, 1, FrameType::QueryResponseEnd.code()],
    ];
    let mut i = 0;
    let mut marker_ix = 0;
    let mut payload = Vec::new();
    while i < out.len() {
        if marker_ix < markers.len() && out[i..].starts_with(&markers[marker_ix]) {
            i += 4;
            marker_ix += 1;
        } else {
            payload.push(out[i]);
            i += 1;
        }
    }
    assert_eq!(marker_ix, markers.len(), "didn't see all expected markers");
    assert!(
        !payload.windows(3).any(|w| w == [0x00, 0x00, 0x01]),
        "payload embedded a frame sentinel: {payload:?}"
    );
}

#[test]
fn zero_size_request_emits_empty_response() {
    let image = build_simple_elf(0x40_0000, vec![0xAB; 0x100]);
    let loader = ElfLoader::from_bytes(image).unwrap();
    let req = make_request(0, 0x40_0000, 0);
    let mut out = Vec::new();
    handle_getbytes(&loader, &req, &mut out).unwrap();
    let mut cur = Cursor::new(out);
    assert_eq!(read_response(&mut cur).unwrap(), None);
}

#[test]
fn malformed_request_missing_attrs_errors() {
    let mut e = Encoder::new();
    e.open_element(1);
    e.attribute_address_space(3, 0);
    e.close_element(1);
    let payload = e.finish();

    let image = build_simple_elf(0x40_0000, vec![0u8; 0x100]);
    let loader = ElfLoader::from_bytes(image).unwrap();
    let mut out = Vec::new();
    assert!(handle_getbytes(&loader, &payload, &mut out).is_err());
    assert!(out.is_empty());
}

#[test]
fn parse_request_picks_the_structural_triple() {
    assert_eq!(
        parse_request(&make_request(3, 0x1234, 16)),
        Ok(GetBytesRequest { space: 3, offset: 0x1234, size: 16 })
    );
    let mut e = Encoder::new();
    e.attribute_unsigned_int(4, 9);
    assert_eq!(parse_request(&e.finish()), Err(RequestError::MissingSpace));
    let mut e = Encoder::new();
    e.attribute_address_space(3, 0);
    e.attribute_unsigned_int(4, 9);
    assert_eq!(parse_request(&e.finish()), Err(RequestError::MissingSize));
}

#[test]
fn oversized_request_emits_empty_response() {
    let image = build_simple_elf(0x40_0000, vec![0xAB; 0x100]);
    let loader = ElfLoader::from_bytes(image).unwrap();
    let req = make_request(0, 0x40_0000, (1 << 20) + 1);
    let mut out = Vec::new();
    handle_getbytes(&loader, &req, &mut out).unwrap();
    assert_eq!(out, vec![0, 0, 1, 8, 0, 0, 1, 9]);
}

// ---- loader -------------------------------------------------------------

#[test]
fn rejects_non_elf_input() {
    let garbage = b"not an elf at all, just some bytes".to_vec();
    let err = ElfLoader::from_bytes(garbage).expect_err("should reject non-ELF");
    let msg = err.message();
    assert!(
        msg.to_lowercase().contains("pars")
            || msg.to_lowercase().contains("magic")
            || msg.to_lowercase().contains("elf"),
        "unexpected error message: {msg}"
    );
}

#[test]
fn entry_point_matches_header() {
    let (image, _) = build_elf(
        0x40_1234,
        &[SegSpec { vaddr: 0x40_0000, memsz: 0x2000, file_data: vec![0xCC; 0x1000], perms: PF_R | PF_X }],
    );
    let loader = ElfLoader::from_bytes(image).unwrap();
    assert_eq!(loader.entry_point(), 0x40_1234);
    assert_eq!(loader.architecture(), Architecture::Amd64);
    assert_eq!(loader.segments().len(), 1);
}

#[test]
fn read_within_segment_returns_file_bytes() {
    let body: Vec<u8> = (0..256u32).map(|b| b as u8).collect();
    let (image, _offsets) = build_elf(
        0x40_0000,
        &[SegSpec { vaddr: 0x40_0000, memsz: 0x100, file_data: body.clone(), perms: PF_R | PF_X }],
    );
    let loader = ElfLoader::from_bytes(image).unwrap();
    let got = loader.read_bytes(0x40_0000 + 32, 16).unwrap();
    assert_eq!(got, body[32..48]);
    let got_head = loader.read_bytes(0x40_0000, 4).unwrap();
    assert_eq!(got_head, body[..4]);
    let got_tail = loader.read_bytes(0x40_0000 + 0xFF, 1).unwrap();
    assert_eq!(got_tail, vec![body[0xFF]]);
}

#[test]
fn read_in_bss_tail_returns_zeros() {
    let file_data = vec![0xAB; 0x100];
    let (image, _) = build_elf(
        0x40_0000,
        &[SegSpec { vaddr: 0x40_0000, memsz: 0x200, file_data, perms: PF_R | PF_W }],
    );
    let loader = ElfLoader::from_bytes(image).unwrap();
    let bss = loader.read_bytes(0x40_0000 + 0x180, 16).unwrap();
    assert_eq!(bss, vec![0u8; 16]);
    let straddle = loader.read_bytes(0x40_0000 + 0xF8, 16).unwrap();
    let mut expected = vec![0xAB; 8];
    expected.extend(std::iter::repeat_n(0u8, 8));
    assert_eq!(straddle, expected);
}

#[test]
fn read_across_gap_errors() {
    let (image, _) = build_elf(
        0x4000,
        &[
            SegSpec { vaddr: 0x4000, memsz: 0x1000, file_data: vec![0x11; 0x1000], perms: PF_R | PF_X },
            SegSpec { vaddr: 0x6000, memsz: 0x1000, file_data: vec![0x22; 0x1000], perms: PF_R | PF_W },
        ],
    );
    let loader = ElfLoader::from_bytes(image).unwrap();
    let err = loader.read_bytes(0x4FF8, 16).expect_err("must error");
    let msg = err.message();
    assert!(
        msg.contains("unmapped") || msg.contains("not covered"),
        "expected gap-error message, got: {msg}"
    );
}

#[test]
fn read_outside_any_segment_errors() {
    let (image, _) = build_elf(
        0x40_0000,
        &[SegSpec { vaddr: 0x40_0000, memsz: 0x1000, file_data: vec![0u8; 0x1000], perms: PF_R }],
    );
    let loader = ElfLoader::from_bytes(image).unwrap();
    let err_low = loader.read_bytes(0x1000, 4).expect_err("must error");
    let msg_low = err_low.message();
    assert!(msg_low.contains("not covered") || msg_low.contains("unmapped"), "got: {msg_low}");
    let err_high = loader.read_bytes(0xFFFF_FFFF_0000_0000, 4).expect_err("must error");
    let msg_high = err_high.message();
    assert!(msg_high.contains("not covered") || msg_high.contains("unmapped"), "got: {msg_high}");
}

#[test]
fn zero_length_read_returns_empty() {
    let (image, _) = build_elf(
        0x40_0000,
        &[SegSpec { vaddr: 0x40_0000, memsz: 0x1000, file_data: vec![0u8; 0x1000], perms: PF_R }],
    );
    let loader = ElfLoader::from_bytes(image).unwrap();
    assert!(loader.read_bytes(0x40_0000, 0).unwrap().is_empty());
    assert!(loader.read_bytes(0xDEAD_BEEF, 0).unwrap().is_empty());
}

#[test]
fn segment_perms_round_trip() {
    let (image, _) = build_elf(
        0x40_0000,
        &[
            SegSpec { vaddr: 0x40_0000, memsz: 0x1000, file_data: vec![0u8; 0x1000], perms: PF_R | PF_X },
            SegSpec { vaddr: 0x60_0000, memsz: 0x1000, file_data: vec![0u8; 0x1000], perms: PF_R | PF_W },
        ],
    );
    let loader = ElfLoader::from_bytes(image).unwrap();
    let segs = loader.segments();
    assert!(segs[0].is_readable() && segs[0].is_executable() && !segs[0].is_writable());
    assert!(segs[1].is_readable() && segs[1].is_writable() && !segs[1].is_executable());
}

#[test]
fn read_overflow_at_u64_max_errors() {
    let (image, _) = build_elf(
        0x40_0000,
        &[SegSpec { vaddr: 0x40_0000, memsz: 0x1000, file_data: vec![0u8; 0x1000], perms: PF_R }],
    );
    let loader = ElfLoader::from_bytes(image).unwrap();
    let err = loader.read_bytes(u64::MAX - 2, 16).expect_err("should detect overflow");
    let msg = err.message();
    assert!(msg.contains("overflow"), "got: {msg}");
}

#[test]
fn read_errors_distinguish_gap_kinds() {
    let (image, _) = build_elf(
        0x4000,
        &[
            SegSpec { vaddr: 0x4000, memsz: 0x1000, file_data: vec![0x11; 0x1000], perms: PF_R },
            SegSpec { vaddr: 0x6000, memsz: 0x1000, file_data: vec![0x22; 0x1000], perms: PF_R },
        ],
    );
    let loader = ElfLoader::from_bytes(image).unwrap();
    assert_eq!(
        loader.read_bytes(0x4FF8, 16),
        Err(LoaderError::PastSegmentEnd { start: 0x4FF8, end: 0x5008 })
    );
    assert_eq!(
        loader.read_bytes(0x4FF8, 0x1010),
        Err(LoaderError::StraddlesGap { start: 0x4FF8, end: 0x6008 })
    );
    assert_eq!(
        loader.read_bytes(0x5800, 4),
        Err(LoaderError::NotCovered { start: 0x5800, end: 0x5804 })
    );
    assert_eq!(loader.read_bytes(0x6000, 2).unwrap(), vec![0x22, 0x22]);
}

#[test]
fn malformed_segment_is_rejected() {
    let (mut image, _) = build_elf(
        0x40_0000,
        &[SegSpec { vaddr: 0x40_0000, memsz: 0x10, file_data: vec![0u8; 0x10], perms: PF_R }],
    );
    // Shrink memsz below filesz.
    let base = ELF_HEADER_SIZE;
    image[base + 40..base + 48].copy_from_slice(&0x8u64.to_le_bytes());
    assert_eq!(
        ElfLoader::from_bytes(image).unwrap_err(),
        LoaderError::MalformedSegment { vaddr: 0x40_0000, filesz: 0x10, memsz: 0x8 }
    );
}

#[test]
fn request_needs_a_space_and_two_integers() {
    let mut e = Encoder::new();
    e.open_element(1);
    e.attribute_address_space(3, 2);
    e.close_element(1);
    assert_eq!(parse_request(&e.finish()), Err(RequestError::MissingOffset));
    let mut e = Encoder::new();
    e.attribute_unsigned_int(4, 0x10);
    e.attribute_bool(5, true);
    e.attribute_unsigned_int(6, 8);
    e.attribute_address_space(3, 1);
    e.attribute_address_space(3, 7);
    assert_eq!(parse_request(&e.finish()), Ok(GetBytesRequest { space: 1, offset: 0x10, size: 8 }));
}
