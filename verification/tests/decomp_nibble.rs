use ghidra_cli::decomp::nibble::{decode, encode, encode_into, NibbleError};

#[test]
fn encode_known_values() {
    // 0x00 -> 'A''A', 0xff -> 'P''P', 0xab -> 'K''L'
    assert_eq!(encode(&[0x00]), "AA");
    assert_eq!(encode(&[0xff]), "PP");
    assert_eq!(encode(&[0xab]), "KL");
    assert_eq!(encode(&[]), "");
}

#[test]
fn roundtrip_random_bytes() {
    let bytes: Vec<u8> = (0u8..=255).collect();
    let encoded = encode(&bytes);
    let decoded = decode(encoded.as_bytes()).unwrap();
    assert_eq!(decoded, bytes);
    assert_eq!(encoded.len(), bytes.len() * 2);
    assert!(encoded.bytes().all(|c| (b'A'..=b'P').contains(&c)));
}

#[test]
fn decode_rejects_odd_length() {
    assert!(decode(b"A").is_err());
    assert!(decode(b"ABC").is_err());
}

#[test]
fn decode_rejects_invalid_chars() {
    assert!(decode(b"AQ").is_err());
    assert!(decode(b"aa").is_err());
    assert!(decode(b"00").is_err());
}

#[test]
fn encode_into_appends() {
    let mut buf = b"prefix:".to_vec();
    encode_into(&[0x12, 0x34], &mut buf);
    assert_eq!(buf, b"prefix:BCDE");
}

#[test]
fn encoded_output_never_contains_sentinel_bytes() {
    let bytes: Vec<u8> = (0u8..=255).collect();
    let encoded = encode(&bytes);
    assert!(!encoded.as_bytes().windows(3).any(|w| w == [0, 0, 1]));
}

#[test]
fn decode_reports_which_error() {
    assert_eq!(decode(b"ABC"), Err(NibbleError::OddLength(3)));
    // The first offending byte, scanning in order.
    assert_eq!(decode(b"ABQz"), Err(NibbleError::InvalidChar(b'Q')));
    assert_eq!(decode(b"zQ"), Err(NibbleError::InvalidChar(b'z')));
    assert_eq!(decode(b"KL").unwrap(), vec![0xab]);
}

#[test]
fn decode_of_encode_is_identity_on_samples() {
    for sample in [vec![], vec![0u8], vec![0x10, 0x00, 0x01, 0xfe], vec![0x7f; 17]] {
        assert_eq!(decode(encode(&sample).as_bytes()).unwrap(), sample);
    }
}
