use ghidra_cli::decomp::packed::{AttrValue, DecodeError, Decoder, Encoder, Event, SpecialSpace};

fn roundtrip(buf: &[u8]) -> Vec<Event> {
    let mut dec = Decoder::new(buf);
    let mut events = Vec::new();
    while let Some(ev) = dec.next_event().unwrap() {
        events.push(ev);
    }
    events
}

#[test]
fn element_open_close_inline_id() {
    let mut e = Encoder::new();
    e.open_element(7);
    e.close_element(7);
    let buf = e.finish();
    assert_eq!(buf, [0x47, 0x87]);
    assert_eq!(
        roundtrip(&buf),
        vec![Event::ElementStart { id: 7 }, Event::ElementEnd { id: 7 }]
    );
}

#[test]
fn element_id_uses_extend_byte_above_31() {
    let mut e = Encoder::new();
    e.open_element(42);
    let buf = e.finish();
    assert_eq!(buf, [0x6a, 0x81]);
    assert_eq!(roundtrip(&buf), vec![Event::ElementStart { id: 42 }]);
}

#[test]
fn bool_attribute_roundtrip() {
    let mut e = Encoder::new();
    e.attribute_bool(3, true);
    e.attribute_bool(3, false);
    let events = roundtrip(&e.finish());
    assert_eq!(
        events,
        vec![
            Event::Attribute { id: 3, value: AttrValue::Bool(true) },
            Event::Attribute { id: 3, value: AttrValue::Bool(false) },
        ]
    );
}

#[test]
fn unsigned_int_roundtrip_small() {
    let mut e = Encoder::new();
    e.attribute_unsigned_int(5, 0);
    e.attribute_unsigned_int(5, 1);
    e.attribute_unsigned_int(5, 0x7f);
    e.attribute_unsigned_int(5, 0x80);
    let events = roundtrip(&e.finish());
    assert_eq!(
        events,
        vec![
            Event::Attribute { id: 5, value: AttrValue::UnsignedInt(0) },
            Event::Attribute { id: 5, value: AttrValue::UnsignedInt(1) },
            Event::Attribute { id: 5, value: AttrValue::UnsignedInt(0x7f) },
            Event::Attribute { id: 5, value: AttrValue::UnsignedInt(0x80) },
        ]
    );
}

#[test]
fn unsigned_int_roundtrip_full_u64() {
    let mut e = Encoder::new();
    e.attribute_unsigned_int(5, 0xdead_beef_cafe_babe);
    e.attribute_unsigned_int(5, u64::MAX);
    let events = roundtrip(&e.finish());
    assert_eq!(
        events,
        vec![
            Event::Attribute { id: 5, value: AttrValue::UnsignedInt(0xdead_beef_cafe_babe) },
            Event::Attribute { id: 5, value: AttrValue::UnsignedInt(u64::MAX) },
        ]
    );
}

#[test]
fn signed_int_negative_roundtrip() {
    let mut e = Encoder::new();
    e.attribute_signed_int(1, -1);
    e.attribute_signed_int(1, -42);
    e.attribute_signed_int(1, 42);
    let events = roundtrip(&e.finish());
    assert_eq!(
        events,
        vec![
            Event::Attribute { id: 1, value: AttrValue::SignedInt(-1) },
            Event::Attribute { id: 1, value: AttrValue::SignedInt(-42) },
            Event::Attribute { id: 1, value: AttrValue::SignedInt(42) },
        ]
    );
}

#[test]
fn string_roundtrip() {
    let mut e = Encoder::new();
    e.attribute_string(11, "");
    e.attribute_string(11, "hello");
    e.attribute_string(11, "non-ascii: π λ ✓");
    let events = roundtrip(&e.finish());
    assert_eq!(
        events,
        vec![
            Event::Attribute { id: 11, value: AttrValue::String("".into()) },
            Event::Attribute { id: 11, value: AttrValue::String("hello".into()) },
            Event::Attribute { id: 11, value: AttrValue::String("non-ascii: π λ ✓".into()) },
        ]
    );
}

#[test]
fn special_space_roundtrip() {
    let mut e = Encoder::new();
    e.attribute_special_space(2, SpecialSpace::Stack);
    e.attribute_special_space(2, SpecialSpace::Fspec);
    let events = roundtrip(&e.finish());
    assert_eq!(
        events,
        vec![
            Event::Attribute { id: 2, value: AttrValue::SpecialSpace(SpecialSpace::Stack) },
            Event::Attribute { id: 2, value: AttrValue::SpecialSpace(SpecialSpace::Fspec) },
        ]
    );
}

#[test]
fn address_space_roundtrip() {
    let mut e = Encoder::new();
    e.attribute_address_space(6, 0);
    e.attribute_address_space(6, 12345);
    let events = roundtrip(&e.finish());
    assert_eq!(
        events,
        vec![
            Event::Attribute { id: 6, value: AttrValue::AddressSpace(0) },
            Event::Attribute { id: 6, value: AttrValue::AddressSpace(12345) },
        ]
    );
}

#[test]
fn nested_element_with_attrs() {
    let mut e = Encoder::new();
    e.open_element(1);
    e.open_element(2);
    e.attribute_unsigned_int(3, 42);
    e.close_element(2);
    e.close_element(1);
    let events = roundtrip(&e.finish());
    assert_eq!(
        events,
        vec![
            Event::ElementStart { id: 1 },
            Event::ElementStart { id: 2 },
            Event::Attribute { id: 3, value: AttrValue::UnsignedInt(42) },
            Event::ElementEnd { id: 2 },
            Event::ElementEnd { id: 1 },
        ]
    );
}

#[test]
fn decoder_eof_returns_none() {
    let mut dec = Decoder::new(&[]);
    assert!(dec.next_event().unwrap().is_none());
}

#[test]
fn decoder_rejects_missing_marker_on_payload() {
    let bad = [0xc0, 0x41, 0x05];
    let mut dec = Decoder::new(&bad);
    assert!(dec.next_event().is_err());
}

#[test]
fn decoder_rejects_truncated_string() {
    let mut e = Encoder::new();
    e.attribute_string(0, "hello, world");
    let mut bytes = e.finish();
    bytes.truncate(bytes.len() - 5);
    let mut dec = Decoder::new(&bytes);
    assert!(dec.next_event().is_err());
}

#[test]
fn decoder_rejects_invalid_utf8() {
    let bad = [0xc0, 0x71, 0x82, 0xff, 0xfe];
    let mut dec = Decoder::new(&bad);
    assert!(dec.next_event().is_err());
}

#[test]
fn output_never_emits_frame_sentinel() {
    let mut e = Encoder::new();
    for id in 0u32..200 {
        e.open_element(id);
        e.attribute_unsigned_int(id, id as u64 * 0x10001);
        e.attribute_string(id, "abc");
        e.attribute_bool(id, id % 2 == 0);
        e.close_element(id);
    }
    let buf = e.finish();
    assert!(!buf.windows(3).any(|w| w == [0x00, 0x00, 0x01]));
    assert!(!buf.contains(&0x00));
}

#[test]
fn signed_int_extremes_roundtrip() {
    let mut e = Encoder::new();
    e.attribute_signed_int(1, i64::MIN);
    e.attribute_signed_int(1, i64::MAX);
    e.attribute_signed_int(1, 0);
    let events = roundtrip(&e.finish());
    assert_eq!(
        events,
        vec![
            Event::Attribute { id: 1, value: AttrValue::SignedInt(i64::MIN) },
            Event::Attribute { id: 1, value: AttrValue::SignedInt(i64::MAX) },
            Event::Attribute { id: 1, value: AttrValue::SignedInt(0) },
        ]
    );
}

#[test]
fn largest_roundtrip_id_and_exact_bytes() {
    let mut e = Encoder::new();
    e.open_element(0xfff);
    e.attribute_unsigned_int(0, 0x80);
    let buf = e.finish();
    // header 0x40|0x20|0x1f, continuation 0x80|0x7f; attribute header 0xc0,
    // type byte 0x42 (uint, two data bytes), data 0x81 0x80.
    assert_eq!(buf, [0x7f, 0xff, 0xc0, 0x42, 0x81, 0x80]);
    assert_eq!(
        roundtrip(&buf),
        vec![
            Event::ElementStart { id: 0xfff },
            Event::Attribute { id: 0, value: AttrValue::UnsignedInt(0x80) },
        ]
    );
}

#[test]
fn decoder_errors_name_the_problem() {
    assert_eq!(Decoder::new(&[0x05]).next_event(), Err(DecodeError::InvalidRecordType(0x00)));
    assert_eq!(Decoder::new(&[0x60]).next_event(), Err(DecodeError::UnexpectedEof));
    assert_eq!(Decoder::new(&[0x60, 0x01]).next_event(), Err(DecodeError::MissingMarker(0x01)));
    assert_eq!(Decoder::new(&[0xc0, 0x65]).next_event(), Err(DecodeError::UnknownSpecialSpace(5)));
    assert_eq!(Decoder::new(&[0xc0, 0x80]).next_event(), Err(DecodeError::UnknownTypeCode(8)));
    assert_eq!(
        Decoder::new(&[0xc0, 0x71, 0x85, b'a']).next_event(),
        Err(DecodeError::StringTooLong { claimed: 5, remaining: 1 })
    );
    assert_eq!(
        Decoder::new(&[0xc0, 0x71, 0x82, 0xff, 0xfe]).next_event(),
        Err(DecodeError::InvalidUtf8)
    );
}

#[test]
fn decoder_tracks_position() {
    let mut e = Encoder::new();
    e.attribute_bool(1, true);
    e.open_element(2);
    let buf = e.finish();
    let mut dec = Decoder::new(&buf);
    assert_eq!(dec.remaining(), 3);
    assert!(!dec.is_eof());
    dec.next_event().unwrap();
    assert_eq!(dec.remaining(), 1);
    dec.next_event().unwrap();
    assert!(dec.is_eof());
    assert_eq!(dec.remaining(), 0);
}

#[test]
fn encoder_as_bytes_matches_finish() {
    let mut e = Encoder::default();
    assert!(e.as_bytes().is_empty());
    e.attribute_special_space(1, SpecialSpace::Spacebase);
    assert_eq!(e.as_bytes(), &[0xc1, 0x64]);
    assert_eq!(e.finish(), vec![0xc1, 0x64]);
}
