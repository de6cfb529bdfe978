use ghidra_cli::decomp::wire::{
    expect_marker, marker_step, read_marker, read_string_frame, read_until_marker, until_step,
    write_marker, write_string_frame, Cursor, FrameType, MarkerScan, UntilScan, WireError,
};

#[test]
fn frame_type_roundtrip() {
    for ty in [
        FrameType::CommandStart,
        FrameType::QueryEnd,
        FrameType::StringStart,
        FrameType::ByteEnd,
        FrameType::WarningStart,
    ] {
        assert_eq!(FrameType::from_byte(ty.code()), Some(ty));
    }
    assert_eq!(FrameType::from_byte(0), None);
    assert_eq!(FrameType::from_byte(1), None);
    assert_eq!(FrameType::from_byte(18), None);
}

#[test]
fn open_close_pairing() {
    assert_eq!(FrameType::CommandStart.matching_close(), Some(FrameType::CommandEnd));
    assert_eq!(FrameType::StringStart.matching_close(), Some(FrameType::StringEnd));
    assert_eq!(FrameType::CommandEnd.matching_close(), None);
}

#[test]
fn marker_roundtrip() {
    let mut buf = Vec::new();
    write_marker(&mut buf, FrameType::QueryStart).unwrap();
    assert_eq!(buf, [0x00, 0x00, 0x01, 0x04]);

    let mut cur = Cursor::new(buf);
    assert_eq!(read_marker(&mut cur).unwrap(), FrameType::QueryStart);
}

#[test]
fn read_marker_skips_leading_garbage() {
    let bytes = vec![0xff, 0xaa, 0x00, 0x00, 0x01, 0x02];
    let mut cur = Cursor::new(bytes);
    assert_eq!(read_marker(&mut cur).unwrap(), FrameType::CommandStart);
}

#[test]
fn read_marker_recovers_from_partial_sentinel() {
    let bytes = vec![0x00, 0x00, 0xff, 0x00, 0x00, 0x01, 0x08];
    let mut cur = Cursor::new(bytes);
    assert_eq!(read_marker(&mut cur).unwrap(), FrameType::QueryResponseStart);
}

#[test]
fn read_marker_rejects_unknown_type() {
    let bytes = vec![0x00, 0x00, 0x01, 0xfe];
    let mut cur = Cursor::new(bytes);
    assert!(read_marker(&mut cur).is_err());
}

#[test]
fn read_marker_errors_on_eof() {
    let bytes = vec![0x00, 0x00, 0x01];
    let mut cur = Cursor::new(bytes);
    assert!(read_marker(&mut cur).is_err());
}

#[test]
fn string_frame_roundtrip_ascii() {
    let mut buf = Vec::new();
    write_string_frame(&mut buf, b"registerProgram").unwrap();
    let mut cur = Cursor::new(buf);
    let payload = read_string_frame(&mut cur).unwrap();
    assert_eq!(payload, b"registerProgram");
}

#[test]
fn string_frame_roundtrip_empty() {
    let mut buf = Vec::new();
    write_string_frame(&mut buf, b"").unwrap();
    assert_eq!(buf.len(), 8);
    let mut cur = Cursor::new(buf);
    assert!(read_string_frame(&mut cur).unwrap().is_empty());
}

#[test]
fn expect_marker_mismatch_errors() {
    let mut buf = Vec::new();
    write_marker(&mut buf, FrameType::StringEnd).unwrap();
    let mut cur = Cursor::new(buf);
    assert!(expect_marker(&mut cur, FrameType::StringStart).is_err());
}

#[test]
fn read_until_marker_flushes_pseudo_sentinel_bytes() {
    let mut buf = Vec::new();
    write_marker(&mut buf, FrameType::StringStart).unwrap();
    buf.extend_from_slice(&[0x00, 0x00, 0x02, b'X']);
    write_marker(&mut buf, FrameType::StringEnd).unwrap();
    let mut cur = Cursor::new(buf);
    let payload = read_string_frame(&mut cur).unwrap();
    assert_eq!(payload, [0x00, 0x00, 0x02, b'X']);
}

#[test]
fn wire_errors_name_the_problem() {
    let mut cur = Cursor::new(vec![0x00, 0x00, 0x01, 0x0f]);
    assert_eq!(
        expect_marker(&mut cur, FrameType::StringStart),
        Err(WireError::UnexpectedMarker { expected: FrameType::StringStart, got: FrameType::StringEnd })
    );
    let mut cur = Cursor::new(vec![b'a', 0x00, 0x00, 0x01, 0x0d]);
    assert_eq!(
        read_until_marker(&mut cur, FrameType::StringEnd),
        Err(WireError::NestedMarker { close: FrameType::StringEnd, got: FrameType::ByteEnd })
    );
    let mut cur = Cursor::new(vec![0x00, 0x00, 0x01, 0xfe]);
    assert_eq!(read_marker(&mut cur), Err(WireError::UnknownFrameType(0xfe)));
    let mut cur = Cursor::new(vec![0x00, 0x00]);
    assert_eq!(read_marker(&mut cur), Err(WireError::UnexpectedEof));
}

#[test]
fn payload_with_even_trailing_zeros_roundtrips() {
    let mut buf = Vec::new();
    write_string_frame(&mut buf, &[b'a', 0x00, 0x00]).unwrap();
    let mut cur = Cursor::new(buf);
    assert_eq!(read_string_frame(&mut cur).unwrap(), vec![b'a', 0x00, 0x00]);
    assert_eq!(cur.offset(), 11);
}

#[test]
fn payload_with_single_trailing_zero_frames() {
    let mut buf = Vec::new();
    write_string_frame(&mut buf, &[b'a', 0x00]).unwrap();
    let mut cur = Cursor::new(buf);
    assert_eq!(read_string_frame(&mut cur).unwrap(), vec![b'a', 0x00]);
}

#[test]
fn step_functions_match_the_readers() {
    assert_eq!(marker_step(0, 0), MarkerScan::Pending(1));
    assert_eq!(marker_step(2, 0), MarkerScan::Pending(2));
    assert_eq!(marker_step(2, 1), MarkerScan::Pending(3));
    assert_eq!(marker_step(3, 9), MarkerScan::Found(FrameType::QueryResponseEnd));
    assert_eq!(marker_step(3, 1), MarkerScan::Unknown(1));
    assert_eq!(until_step(2, 0), UntilScan::Pending { state: 2, emit: vec![0] });
    assert_eq!(until_step(1, b'x'), UntilScan::Pending { state: 0, emit: vec![0, b'x'] });
    assert_eq!(until_step(3, 15), UntilScan::Marker(FrameType::StringEnd));
}

#[test]
fn frame_codes_and_openness() {
    assert_eq!(FrameType::CommandStart.code(), 2);
    assert_eq!(FrameType::WarningEnd.code(), 17);
    assert!(FrameType::ByteStart.is_open());
    assert!(!FrameType::ByteEnd.is_open());
    assert_eq!(FrameType::WarningStart.matching_close(), Some(FrameType::WarningEnd));
}

#[test]
fn payloads_ending_in_zeros_read_back() {
    for payload in [vec![0x41u8, 0x00], vec![0x00], vec![0x00, 0x00], vec![0x00, 0x00, 0x00, 0x02], b"registerProgram".to_vec(), vec![]] {
        let mut buf = Vec::new();
        write_string_frame(&mut buf, &payload).unwrap();
        let n = buf.len();
        let mut cur = Cursor::new(buf);
        assert_eq!(read_string_frame(&mut cur).unwrap(), payload);
        assert_eq!(cur.offset(), n);
    }
    let mut cur = Cursor::new(vec![0x41, 0x00, 0x00, 0x00, 0x01, 0x0f]);
    assert_eq!(read_until_marker(&mut cur, FrameType::StringEnd).unwrap(), vec![0x41, 0x00]);
    assert_eq!(cur.offset(), 6);
}

#[test]
fn read_until_marker_stops_at_the_first_sentinel() {
    let close = FrameType::StringEnd;
    let close_code = close.code();
    let mut cur = Cursor::new(vec![b'a', 0x00, b'b', 0x00, 0x00, 0x00, 0x01, close_code, b'z']);
    assert_eq!(read_until_marker(&mut cur, close), Ok(vec![b'a', 0x00, b'b', 0x00]));
    assert_eq!(cur.offset(), 8);
    let mut cur = Cursor::new(vec![b'a', 0x00, 0x00, 0x01, 0xfe]);
    assert_eq!(read_until_marker(&mut cur, close), Err(WireError::UnknownFrameType(0xfe)));
    let mut cur = Cursor::new(vec![b'a', 0x00, 0x00, 0x01]);
    assert_eq!(read_until_marker(&mut cur, close), Err(WireError::UnexpectedEof));
    let mut cur = Cursor::new(vec![b'a', b'b', 0x00, 0x00]);
    assert_eq!(read_until_marker(&mut cur, close), Err(WireError::UnexpectedEof));
}
