use tas_server::codec::{
    decode_envelope, encode_envelope, read_u32_le, Decoded, FrameError, DEFAULT_MAX_ENVELOPE,
};

#[test]
fn read_u32_le_reads_little_endian() {
    assert_eq!(read_u32_le(&[0x78, 0x56, 0x34, 0x12, 0xff]), 0x1234_5678);
    assert_eq!(read_u32_le(&[0xff, 0xff, 0xff, 0xff]), u32::MAX);
}

#[test]
fn encode_prefixes_total_length() {
    let bytes = encode_envelope(&[7, 8, 9]).unwrap();
    assert_eq!(bytes, vec![7, 0, 0, 0, 7, 8, 9]);
}

#[test]
fn encode_empty_payload_is_header_only() {
    assert_eq!(encode_envelope(&[]).unwrap(), vec![4, 0, 0, 0]);
}

#[test]
fn round_trip_returns_payload_and_length() {
    let payload: Vec<u8> = (0..=255u8).collect();
    let mut stream = encode_envelope(&payload).unwrap();
    stream.extend_from_slice(&[1, 2, 3]);
    match decode_envelope(&stream, DEFAULT_MAX_ENVELOPE, false) {
        Decoded::Complete { payload: got, consumed } => {
            assert_eq!(got, payload);
            assert_eq!(consumed, 260);
        }
        other => panic!("unexpected {:?}", other),
    }
}

#[test]
fn every_strict_prefix_is_not_ready_or_truncated() {
    let stream = encode_envelope(b"hello").unwrap();
    for k in 0..stream.len() {
        assert!(matches!(decode_envelope(&stream[..k], DEFAULT_MAX_ENVELOPE, false), Decoded::NotReady));
        assert!(matches!(
            decode_envelope(&stream[..k], DEFAULT_MAX_ENVELOPE, true),
            Decoded::Failed { error: FrameError::Truncated }
        ));
    }
}

#[test]
fn declared_length_above_maximum_is_refused_from_header() {
    let header = [0x01, 0x00, 0x00, 0x01];
    assert!(matches!(
        decode_envelope(&header, 1024, false),
        Decoded::Failed { error: FrameError::SizeExceeded }
    ));
    let stream = encode_envelope(&[0u8; 100]).unwrap();
    assert!(matches!(
        decode_envelope(&stream, 103, false),
        Decoded::Failed { error: FrameError::SizeExceeded }
    ));
    assert!(matches!(decode_envelope(&stream, 104, false), Decoded::Complete { .. }));
}

#[test]
fn declared_length_below_header_is_malformed() {
    assert!(matches!(
        decode_envelope(&[3, 0, 0, 0, 9], DEFAULT_MAX_ENVELOPE, false),
        Decoded::Failed { error: FrameError::Malformed }
    ));
}

#[test]
fn closed_empty_stream_is_truncated() {
    assert!(matches!(
        decode_envelope(&[], DEFAULT_MAX_ENVELOPE, true),
        Decoded::Failed { error: FrameError::Truncated }
    ));
    assert!(matches!(decode_envelope(&[], DEFAULT_MAX_ENVELOPE, false), Decoded::NotReady));
}
