use h2core::deframe::strip_padding;
use h2core::frame::{
    encode_frame_header, parse_frame_header, parse_priority, parse_reserved_and_u31,
    preface_bytes, starts_with_preface, Frame, FrameType, FLAG_PADDED,
};
use h2core::settings::{encode_settings, parse_settings, Settings};
use h2core::types::H2ConnectionError;

#[test]
fn frame_header_parses_exact_bytes() {
    // length 0x000102, type DATA, flags 0x01, stream id 5 with reserved bit set
    let b = [0x00u8, 0x01, 0x02, 0x00, 0x01, 0x80, 0x00, 0x00, 0x05];
    let f = parse_frame_header(&b).unwrap();
    assert_eq!(f.len, 0x0102);
    assert_eq!(f.frame_type, FrameType::Data);
    assert_eq!(f.flags, 0x01);
    // the reserved bit is dropped
    assert_eq!(f.stream_id, 5);
}

#[test]
fn frame_header_round_trips() {
    let f = Frame { frame_type: FrameType::Headers, flags: 0x25, len: 0x00ff01, stream_id: 0x7fff_ffff };
    let bytes = encode_frame_header(&f);
    assert_eq!(bytes.len(), 9);
    let g = parse_frame_header(&bytes).unwrap();
    assert_eq!(f, g);
}

#[test]
fn frame_header_needs_nine_bytes() {
    assert!(parse_frame_header(&[0u8; 8]).is_none());
}

#[test]
fn unknown_frame_type_keeps_code() {
    let b = [0x00u8, 0x00, 0x00, 0x77, 0x00, 0x00, 0x00, 0x00, 0x00];
    let f = parse_frame_header(&b).unwrap();
    assert_eq!(f.frame_type, FrameType::Unknown(0x77));
}

#[test]
fn settings_round_trip() {
    let s = Settings {
        header_table_size: 8192,
        enable_push: false,
        max_concurrent_streams: 7,
        initial_window_size: 123456,
        max_frame_size: 65536,
        max_header_list_size: 9999,
    };
    let bytes = encode_settings(&s);
    assert_eq!(bytes.len(), 36);
    let decoded = parse_settings(&bytes, &Settings::default()).unwrap();
    assert_eq!(decoded, s);
}

#[test]
fn settings_unknown_identifier_ignored() {
    // identifier 0x99 is unknown; value applies to nothing
    let bytes = [0x00u8, 0x99, 0x00, 0x00, 0x00, 0x07];
    let base = Settings::default();
    let decoded = parse_settings(&bytes, &base).unwrap();
    assert_eq!(decoded, base);
}

#[test]
fn settings_ragged_length_rejected() {
    let bytes = [0x00u8, 0x01, 0x00, 0x00];
    assert!(parse_settings(&bytes, &Settings::default()).is_none());
}

#[test]
fn settings_bad_enable_push_rejected() {
    // SETTINGS_ENABLE_PUSH must be 0 or 1
    let bytes = [0x00u8, 0x02, 0x00, 0x00, 0x00, 0x02];
    assert!(parse_settings(&bytes, &Settings::default()).is_none());
}

#[test]
fn priority_payload_parses() {
    // exclusive bit, dependency 9, weight 200
    let b = [0x80u8, 0x00, 0x00, 0x09, 200];
    let p = parse_priority(&b).unwrap();
    assert!(p.exclusive);
    assert_eq!(p.stream_dependency, 9);
    assert_eq!(p.weight, 200);
    assert!(parse_priority(&b[..4]).is_none());
}

#[test]
fn window_update_payload_parses() {
    let b = [0x80u8, 0x00, 0x01, 0x00];
    let (reserved, v) = parse_reserved_and_u31(&b).unwrap();
    assert!(reserved);
    assert_eq!(v, 256);
}

#[test]
fn preface_bytes_are_exact() {
    let p = preface_bytes();
    assert_eq!(&p[..], b"PRI * HTTP/2.0\r\n\r\nSM\r\n\r\n");
    assert!(starts_with_preface(&p));
    let mut q = p.clone();
    q[0] = b'X';
    assert!(!starts_with_preface(&q));
}

#[test]
fn padding_is_stripped() {
    let frame = Frame { frame_type: FrameType::Data, flags: FLAG_PADDED, len: 8, stream_id: 1 };
    // pad length 3, body "abcd", 3 pad bytes
    let payload = vec![3u8, b'a', b'b', b'c', b'd', 0, 0, 0];
    let (stripped, body) = strip_padding(frame, payload).unwrap();
    assert_eq!(&body[..], b"abcd");
    assert_eq!(stripped.len, 4);
}

#[test]
fn padding_longer_than_payload_rejected() {
    let frame = Frame { frame_type: FrameType::Data, flags: FLAG_PADDED, len: 3, stream_id: 1 };
    let payload = vec![7u8, 1, 2];
    match strip_padding(frame, payload) {
        Err(H2ConnectionError::PaddedFrameTooShort { padding_length, .. }) => {
            assert_eq!(padding_length, 7)
        }
        other => panic!("unexpected: {other:?}"),
    }
}

#[test]
fn padded_empty_payload_rejected() {
    let frame = Frame { frame_type: FrameType::Data, flags: FLAG_PADDED, len: 0, stream_id: 1 };
    match strip_padding(frame, Vec::new()) {
        Err(H2ConnectionError::PaddedFrameEmpty { .. }) => {}
        other => panic!("unexpected: {other:?}"),
    }
}

#[test]
fn unpadded_payload_untouched() {
    let frame = Frame { frame_type: FrameType::Data, flags: 0, len: 3, stream_id: 1 };
    let (f, body) = strip_padding(frame, vec![1, 2, 3]).unwrap();
    assert_eq!(f, frame);
    assert_eq!(body, vec![1, 2, 3]);
}
