use h2core::conn::{ServerConf, ServerConn};
use h2core::types::{Action, H2ConnectionError, H2Event, H2EventPayload, KnownErrorCode, Response};
use h2core::frame::FrameType;

const PREFACE: &[u8] = b"PRI * HTTP/2.0\r\n\r\nSM\r\n\r\n";

/// A raw wire frame: 9-byte header then payload.
fn wire(ty: u8, flags: u8, stream_id: u32, payload: &[u8]) -> Vec<u8> {
    let len = payload.len() as u32;
    let mut v = vec![
        (len >> 16) as u8,
        (len >> 8) as u8,
        len as u8,
        ty,
        flags,
        (stream_id >> 24) as u8,
        (stream_id >> 16) as u8,
        (stream_id >> 8) as u8,
        stream_id as u8,
    ];
    v.extend_from_slice(payload);
    v
}

fn encode_request_headers(fields: &[(&[u8], &[u8])]) -> Vec<u8> {
    let mut enc = hpack::Encoder::new();
    enc.encode(fields.iter().cloned())
}

fn opened_conn(max_streams: u32) -> ServerConn {
    let mut conn = ServerConn::new(&ServerConf { max_streams });
    let acts = conn.on_bytes(PREFACE).unwrap();
    assert_eq!(acts.len(), 1);
    match &acts[0] {
        Action::WriteFrame(f) => {
            assert_eq!(f.frame.frame_type, FrameType::Settings);
            assert_eq!(f.frame.stream_id, 0);
            assert_eq!(f.frame.flags, 0);
        }
        other => panic!("expected initial settings, got {other:?}"),
    }
    conn
}

fn goaway_code(conn: &mut ServerConn, err: H2ConnectionError) -> u32 {
    let f = conn.goaway(err).expect("goaway should be emitted once");
    assert_eq!(f.frame.frame_type, FrameType::GoAway);
    assert_eq!(f.frame.stream_id, 0);
    assert!(f.payload.len() >= 8);
    u32::from_be_bytes([f.payload[4], f.payload[5], f.payload[6], f.payload[7]])
}

#[test]
fn preface_only_clean_close() {
    let mut conn = opened_conn(32);
    conn.on_eof().unwrap();
}

#[test]
fn preface_mismatch_is_an_error() {
    let mut conn = ServerConn::new(&ServerConf::default());
    match conn.on_bytes(b"GET / HTTP/1.1\r\n\r\n notit!") {
        Err(H2ConnectionError::InvalidPreface) => {}
        other => panic!("unexpected: {other:?}"),
    }
}

#[test]
fn partial_preface_then_eof_is_unexpected() {
    let mut conn = ServerConn::new(&ServerConf::default());
    assert!(conn.on_bytes(&PREFACE[..10]).unwrap().is_empty());
    match conn.on_eof() {
        Err(H2ConnectionError::UnexpectedEof) => {}
        other => panic!("unexpected: {other:?}"),
    }
}

#[test]
fn simple_get() {
    let mut conn = opened_conn(32);

    // client settings (empty) are acknowledged
    let acts = conn.on_bytes(&wire(0x4, 0, 0, &[])).unwrap();
    assert_eq!(acts.len(), 1);
    match &acts[0] {
        Action::WriteFrame(f) => {
            assert_eq!(f.frame.frame_type, FrameType::Settings);
            assert_eq!(f.frame.flags, 0x1);
            assert!(f.payload.is_empty());
        }
        other => panic!("expected settings ack, got {other:?}"),
    }

    let block = encode_request_headers(&[
        (b":method", b"GET"),
        (b":scheme", b"http"),
        (b":path", b"/"),
        (b":authority", b"x"),
    ]);
    // END_HEADERS | END_STREAM
    let acts = conn.on_bytes(&wire(0x1, 0x4 | 0x1, 1, &block)).unwrap();
    assert_eq!(acts.len(), 1);
    match &acts[0] {
        Action::StartRequest { stream_id, request, end_stream } => {
            assert_eq!(*stream_id, 1);
            assert!(*end_stream);
            assert_eq!(request.method, b"GET");
            assert_eq!(request.scheme, b"http");
            assert_eq!(request.path, b"/");
            assert_eq!(request.authority.as_deref(), Some(&b"x"[..]));
        }
        other => panic!("expected request, got {other:?}"),
    }

    // the handler answers 200 with an empty body
    let acts = conn
        .on_event(H2Event {
            stream_id: 1,
            payload: H2EventPayload::Headers(Response { status: 200, headers: vec![] }),
        })
        .unwrap();
    assert_eq!(acts.len(), 1);
    match &acts[0] {
        Action::WriteFrame(f) => {
            assert_eq!(f.frame.frame_type, FrameType::Headers);
            assert_eq!(f.frame.flags, 0x4);
            assert_eq!(f.frame.stream_id, 1);
            let mut dec = hpack::Decoder::new();
            let pairs = dec.decode(&f.payload).unwrap();
            assert_eq!(pairs, vec![(b":status".to_vec(), b"200".to_vec())]);
        }
        other => panic!("expected response headers, got {other:?}"),
    }
    let acts = conn
        .on_event(H2Event { stream_id: 1, payload: H2EventPayload::BodyEnd })
        .unwrap();
    assert_eq!(acts.len(), 1);
    match &acts[0] {
        Action::WriteFrame(f) => {
            assert_eq!(f.frame.frame_type, FrameType::Data);
            assert_eq!(f.frame.flags, 0x1);
            assert!(f.payload.is_empty());
        }
        other => panic!("expected end of body, got {other:?}"),
    }
}

#[test]
fn oversized_frame_goes_away() {
    let mut conn = opened_conn(32);
    // a DATA header announcing 16385 bytes while max_frame_size is 16384
    let mut hdr = wire(0x0, 0, 1, &[]);
    hdr[0] = 0x00;
    hdr[1] = 0x40;
    hdr[2] = 0x01;
    let err = conn.on_bytes(&hdr).unwrap_err();
    match err {
        H2ConnectionError::FrameTooLarge { frame_size, max_frame_size, .. } => {
            assert_eq!(frame_size, 16385);
            assert_eq!(max_frame_size, 16384);
        }
        other => panic!("unexpected: {other:?}"),
    }
    let code = goaway_code(&mut conn, err);
    assert_eq!(code, KnownErrorCode::FrameSizeError.repr());
    // after the goaway nothing further is emitted
    assert!(conn.goaway(err).is_none());
    assert!(conn.on_bytes(&wire(0x6, 0, 0, &[0; 8])).unwrap().is_empty());
}

#[test]
fn continuation_split_delivers_one_request() {
    let mut conn = opened_conn(32);
    let block = encode_request_headers(&[
        (b":method", b"GET"),
        (b":scheme", b"http"),
        (b":path", b"/where"),
        (b":authority", b"x"),
        (b"user-agent", b"check"),
    ]);
    let (a, b) = block.split_at(block.len() / 2);
    // HEADERS without END_HEADERS, then CONTINUATION with END_HEADERS
    let acts = conn.on_bytes(&wire(0x1, 0x1, 1, a)).unwrap();
    assert!(acts.is_empty());
    let acts = conn.on_bytes(&wire(0x9, 0x4, 1, b)).unwrap();
    assert_eq!(acts.len(), 1);
    match &acts[0] {
        Action::StartRequest { stream_id, request, .. } => {
            assert_eq!(*stream_id, 1);
            assert_eq!(request.path, b"/where");
            assert_eq!(request.headers.len(), 1);
            assert_eq!(request.headers[0].name, b"user-agent");
            assert_eq!(request.headers[0].value, b"check");
        }
        other => panic!("expected request, got {other:?}"),
    }
}

#[test]
fn continuation_interleave_is_protocol_error() {
    let mut conn = opened_conn(32);
    let block = encode_request_headers(&[(b":method", b"GET")]);
    // HEADERS without END_HEADERS on stream 1, then DATA on stream 1
    assert!(conn.on_bytes(&wire(0x1, 0x1, 1, &block)).unwrap().is_empty());
    let err = conn.on_bytes(&wire(0x0, 0, 1, b"zzz")).unwrap_err();
    match err {
        H2ConnectionError::ExpectedContinuationFrame { stream_id, frame_type } => {
            assert_eq!(stream_id, 1);
            assert_eq!(frame_type, Some(FrameType::Data));
        }
        other => panic!("unexpected: {other:?}"),
    }
    assert_eq!(goaway_code(&mut conn, err), KnownErrorCode::ProtocolError.repr());
}

#[test]
fn second_stream_is_refused_when_full() {
    let mut conn = opened_conn(1);
    let block = encode_request_headers(&[
        (b":method", b"POST"),
        (b":scheme", b"http"),
        (b":path", b"/"),
        (b":authority", b"x"),
    ]);
    // stream 1 opens and stays open (no END_STREAM)
    let acts = conn.on_bytes(&wire(0x1, 0x4, 1, &block)).unwrap();
    assert!(matches!(acts[0], Action::StartRequest { stream_id: 1, .. }));

    // stream 3 is refused
    let block3 = encode_request_headers(&[
        (b":method", b"GET"),
        (b":scheme", b"http"),
        (b":path", b"/"),
        (b":authority", b"x"),
    ]);
    let acts = conn.on_bytes(&wire(0x1, 0x4 | 0x1, 3, &block3)).unwrap();
    assert_eq!(acts.len(), 1);
    match &acts[0] {
        Action::WriteFrame(f) => {
            assert_eq!(f.frame.frame_type, FrameType::RstStream);
            assert_eq!(f.frame.stream_id, 3);
            let code = u32::from_be_bytes([f.payload[0], f.payload[1], f.payload[2], f.payload[3]]);
            assert_eq!(code, KnownErrorCode::RefusedStream.repr());
        }
        other => panic!("expected reset, got {other:?}"),
    }

    // the cap held: only one stream is tracked
    assert_eq!(conn.processor.state.stream_count(), 1);

    // the first stream still works: DATA is delivered
    let acts = conn.on_bytes(&wire(0x0, 0x1, 1, b"body")).unwrap();
    assert_eq!(acts.len(), 1);
    match &acts[0] {
        Action::DeliverData { stream_id, bytes, end_stream } => {
            assert_eq!(*stream_id, 1);
            assert_eq!(bytes, b"body");
            assert!(*end_stream);
        }
        other => panic!("expected body, got {other:?}"),
    }
}

#[test]
fn client_push_promise_goes_away() {
    let mut conn = opened_conn(32);
    let err = conn.on_bytes(&wire(0x5, 0x4, 2, &[0, 0, 0, 2])).unwrap_err();
    assert_eq!(err, H2ConnectionError::ClientSentPushPromise);
    assert_eq!(goaway_code(&mut conn, err), KnownErrorCode::ProtocolError.repr());
}

#[test]
fn ping_is_echoed_byte_for_byte() {
    let mut conn = opened_conn(32);
    let payload = [9u8, 8, 7, 6, 5, 4, 3, 2];
    let acts = conn.on_bytes(&wire(0x6, 0, 0, &payload)).unwrap();
    assert_eq!(acts.len(), 1);
    match &acts[0] {
        Action::WriteFrame(f) => {
            assert_eq!(f.frame.frame_type, FrameType::Ping);
            assert_eq!(f.frame.flags, 0x1);
            assert_eq!(f.frame.stream_id, 0);
            assert_eq!(&f.payload[..], &payload[..]);
        }
        other => panic!("expected pong, got {other:?}"),
    }
    // an ACK is swallowed
    let acts = conn.on_bytes(&wire(0x6, 0x1, 0, &payload)).unwrap();
    assert!(acts.is_empty());
}

#[test]
fn ping_errors() {
    let mut conn = opened_conn(32);
    let err = conn.on_bytes(&wire(0x6, 0, 1, &[0; 8])).unwrap_err();
    assert!(matches!(err, H2ConnectionError::PingFrameWithNonZeroStreamId { stream_id: 1 }));
    let mut conn = opened_conn(32);
    let err = conn.on_bytes(&wire(0x6, 0, 0, &[0; 7])).unwrap_err();
    assert!(matches!(err, H2ConnectionError::PingFrameInvalidLength { len: 7 }));
}

#[test]
fn goaway_records_receipt() {
    let mut conn = opened_conn(32);
    let mut payload = vec![0u8; 8];
    payload[7] = 0; // last stream id 0, NO_ERROR
    let acts = conn.on_bytes(&wire(0x7, 0, 0, &payload)).unwrap();
    assert!(acts.is_empty());
    assert!(conn.processor.state.goaway_recv);
    let err = {
        let mut c2 = opened_conn(32);
        c2.on_bytes(&wire(0x7, 0, 3, &payload)).unwrap_err()
    };
    assert!(matches!(err, H2ConnectionError::GoAwayWithNonZeroStreamId { stream_id: 3 }));
}

#[test]
fn window_update_rules() {
    let mut conn = opened_conn(32);
    // connection-level update with a sane increment is a no-op
    assert!(conn.on_bytes(&wire(0x8, 0, 0, &[0, 0, 0, 1])).unwrap().is_empty());
    // wrong length
    let err = conn.on_bytes(&wire(0x8, 0, 0, &[0, 0, 1])).unwrap_err();
    assert!(matches!(err, H2ConnectionError::WindowUpdateInvalidLength { len: 3 }));
    // zero increment
    let mut conn = opened_conn(32);
    let err = conn.on_bytes(&wire(0x8, 0, 0, &[0, 0, 0, 0])).unwrap_err();
    assert_eq!(err, H2ConnectionError::WindowUpdateZeroIncrement);
    // unknown stream
    let mut conn = opened_conn(32);
    let err = conn.on_bytes(&wire(0x8, 0, 7, &[0, 0, 0, 1])).unwrap_err();
    assert!(matches!(err, H2ConnectionError::WindowUpdateForUnknownStream { stream_id: 7 }));
}

#[test]
fn settings_errors() {
    let mut conn = opened_conn(32);
    let err = conn.on_bytes(&wire(0x4, 0, 1, &[])).unwrap_err();
    assert!(matches!(err, H2ConnectionError::SettingsWithNonZeroStreamId { stream_id: 1 }));
    let mut conn = opened_conn(32);
    let err = conn.on_bytes(&wire(0x4, 0x1, 0, &[0; 6])).unwrap_err();
    assert!(matches!(err, H2ConnectionError::SettingsAckWithPayload { len: 6 }));
    let mut conn = opened_conn(32);
    let err = conn.on_bytes(&wire(0x4, 0, 0, &[0; 4])).unwrap_err();
    assert_eq!(err, H2ConnectionError::SettingsInvalid);
}

#[test]
fn settings_update_applies_to_peer() {
    let mut conn = opened_conn(32);
    // header_table_size 512
    let payload = [0x00u8, 0x01, 0x00, 0x00, 0x02, 0x00];
    let acts = conn.on_bytes(&wire(0x4, 0, 0, &payload)).unwrap();
    assert_eq!(acts.len(), 1);
    assert_eq!(conn.processor.state.peer_settings.header_table_size, 512);
}

#[test]
fn stray_continuation_is_protocol_error() {
    let mut conn = opened_conn(32);
    let err = conn.on_bytes(&wire(0x9, 0x4, 1, b"x")).unwrap_err();
    assert!(matches!(err, H2ConnectionError::UnexpectedContinuationFrame { stream_id: 1 }));
}

#[test]
fn continuation_for_other_stream_is_rejected() {
    let mut conn = opened_conn(32);
    let block = encode_request_headers(&[(b":method", b"GET")]);
    assert!(conn.on_bytes(&wire(0x1, 0x1, 1, &block)).unwrap().is_empty());
    let err = conn.on_bytes(&wire(0x9, 0x4, 3, b"x")).unwrap_err();
    match err {
        H2ConnectionError::ExpectedContinuationForStream { stream_id, continuation_stream_id } => {
            assert_eq!(stream_id, 1);
            assert_eq!(continuation_stream_id, 3);
        }
        other => panic!("unexpected: {other:?}"),
    }
}

#[test]
fn eof_inside_header_block_is_an_error() {
    let mut conn = opened_conn(32);
    let block = encode_request_headers(&[(b":method", b"GET")]);
    assert!(conn.on_bytes(&wire(0x1, 0x1, 1, &block)).unwrap().is_empty());
    match conn.on_eof() {
        Err(H2ConnectionError::ExpectedContinuationFrame { stream_id: 1, frame_type: None }) => {}
        other => panic!("unexpected: {other:?}"),
    }
}

#[test]
fn eof_mid_frame_is_incomplete() {
    let mut conn = opened_conn(32);
    // announce 4 payload bytes, deliver none
    assert!(conn.on_bytes(&wire(0x0, 0, 1, &[1, 2, 3, 4])[..9]).unwrap().is_empty());
    match conn.on_eof() {
        Err(H2ConnectionError::IncompleteFrame { frame_type: FrameType::Data, frame_size: 4 }) => {}
        other => panic!("unexpected: {other:?}"),
    }
}

#[test]
fn stream_id_rules_on_headers() {
    let block = encode_request_headers(&[
        (b":method", b"GET"),
        (b":scheme", b"http"),
        (b":path", b"/"),
        (b":authority", b"x"),
    ]);
    // even stream id
    let mut conn = opened_conn(32);
    let err = conn.on_bytes(&wire(0x1, 0x5, 2, &block)).unwrap_err();
    assert_eq!(err, H2ConnectionError::ClientSidShouldBeOdd);
    // decreasing stream id
    let mut conn = opened_conn(32);
    conn.on_bytes(&wire(0x1, 0x5, 5, &block)).unwrap();
    let block2 = encode_request_headers(&[(b":method", b"GET")]);
    let err = conn.on_bytes(&wire(0x1, 0x5, 3, &block2)).unwrap_err();
    assert!(matches!(
        err,
        H2ConnectionError::ClientSidShouldBeNumericallyIncreasing { stream_id: 3, last_stream_id: 5 }
    ));
    // reusing the last stream id after it closed
    let mut conn = opened_conn(32);
    conn.on_bytes(&wire(0x1, 0x5, 5, &block)).unwrap();
    let acts = conn.on_bytes(&wire(0x3, 0, 5, &[0, 0, 0, 8])).unwrap();
    assert!(acts.is_empty()); // half-closed-remote stream reset quietly
    let err = conn.on_bytes(&wire(0x1, 0x5, 5, &block)).unwrap_err();
    assert!(matches!(err, H2ConnectionError::StreamClosed { stream_id: 5 }));
}

#[test]
fn data_frame_rules() {
    // DATA for an unknown stream closes the connection
    let mut conn = opened_conn(32);
    let err = conn.on_bytes(&wire(0x0, 0, 9, b"x")).unwrap_err();
    assert!(matches!(err, H2ConnectionError::StreamClosed { stream_id: 9 }));

    // DATA after the client's END_STREAM resets the stream only
    let mut conn = opened_conn(32);
    let block = encode_request_headers(&[
        (b":method", b"POST"),
        (b":scheme", b"http"),
        (b":path", b"/"),
        (b":authority", b"x"),
    ]);
    conn.on_bytes(&wire(0x1, 0x5, 1, &block)).unwrap();
    let acts = conn.on_bytes(&wire(0x0, 0, 1, b"late")).unwrap();
    assert_eq!(acts.len(), 1);
    match &acts[0] {
        Action::WriteFrame(f) => {
            assert_eq!(f.frame.frame_type, FrameType::RstStream);
            let code = u32::from_be_bytes([f.payload[0], f.payload[1], f.payload[2], f.payload[3]]);
            assert_eq!(code, KnownErrorCode::StreamClosed.repr());
        }
        other => panic!("expected reset, got {other:?}"),
    }
}

#[test]
fn rst_stream_rules() {
    // wrong size resets the stream with FRAME_SIZE_ERROR
    let mut conn = opened_conn(32);
    let block = encode_request_headers(&[
        (b":method", b"POST"),
        (b":scheme", b"http"),
        (b":path", b"/"),
        (b":authority", b"x"),
    ]);
    conn.on_bytes(&wire(0x1, 0x4, 1, &block)).unwrap();
    let acts = conn.on_bytes(&wire(0x3, 0, 1, &[0, 0, 8])).unwrap();
    match &acts[0] {
        Action::WriteFrame(f) => {
            assert_eq!(f.frame.frame_type, FrameType::RstStream);
            let code = u32::from_be_bytes([f.payload[0], f.payload[1], f.payload[2], f.payload[3]]);
            assert_eq!(code, KnownErrorCode::FrameSizeError.repr());
        }
        other => panic!("expected reset, got {other:?}"),
    }
    // resetting an open stream tells its reader
    let mut conn = opened_conn(32);
    conn.on_bytes(&wire(0x1, 0x4, 1, &block)).unwrap();
    let acts = conn.on_bytes(&wire(0x3, 0, 1, &[0, 0, 0, 8])).unwrap();
    assert!(matches!(acts[0], Action::ResetIncoming { stream_id: 1, .. }));
    // resetting an unknown stream is a connection error
    let err = conn.on_bytes(&wire(0x3, 0, 1, &[0, 0, 0, 8])).unwrap_err();
    assert!(matches!(err, H2ConnectionError::RstStreamForUnknownStream { stream_id: 1 }));
}

#[test]
fn priority_rules() {
    let mut conn = opened_conn(32);
    // a stream depending on itself is a connection error
    let err = conn.on_bytes(&wire(0x2, 0, 3, &[0, 0, 0, 3, 10])).unwrap_err();
    assert!(matches!(err, H2ConnectionError::HeadersInvalidPriority { stream_id: 3 }));
    // a malformed size resets the stream
    let mut conn = opened_conn(32);
    let acts = conn.on_bytes(&wire(0x2, 0, 3, &[0, 0, 0])).unwrap();
    assert!(matches!(acts[0], Action::WriteFrame(_)));
    // a sane priority frame is ignored
    let mut conn = opened_conn(32);
    assert!(conn.on_bytes(&wire(0x2, 0, 3, &[0, 0, 0, 1, 10])).unwrap().is_empty());
}

#[test]
fn headers_with_priority_on_self_rejected() {
    let mut conn = opened_conn(32);
    let block = encode_request_headers(&[(b":method", b"GET")]);
    let mut payload = vec![0u8, 0, 0, 1, 16];
    payload.extend_from_slice(&block);
    // HEADERS with PRIORITY flag whose dependency equals the stream id
    let err = conn.on_bytes(&wire(0x1, 0x4 | 0x20, 1, &payload)).unwrap_err();
    assert!(matches!(err, H2ConnectionError::HeadersInvalidPriority { stream_id: 1 }));
    // and one too short for the priority fields
    let mut conn = opened_conn(32);
    let err = conn.on_bytes(&wire(0x1, 0x4 | 0x20, 1, &[0, 0])).unwrap_err();
    assert!(matches!(err, H2ConnectionError::PriorityPayloadTooShort { stream_id: 1 }));
}

#[test]
fn trailers_rules() {
    let block = encode_request_headers(&[
        (b":method", b"POST"),
        (b":scheme", b"http"),
        (b":path", b"/"),
        (b":authority", b"x"),
    ]);
    // trailers without END_STREAM reset the stream
    let mut conn = opened_conn(32);
    conn.on_bytes(&wire(0x1, 0x4, 1, &block)).unwrap();
    let trailer_block = encode_request_headers(&[(b"checksum", b"zz")]);
    let acts = conn.on_bytes(&wire(0x1, 0x4, 1, &trailer_block)).unwrap();
    match &acts[0] {
        Action::WriteFrame(f) => {
            assert_eq!(f.frame.frame_type, FrameType::RstStream);
            let code = u32::from_be_bytes([f.payload[0], f.payload[1], f.payload[2], f.payload[3]]);
            assert_eq!(code, KnownErrorCode::ProtocolError.repr());
        }
        other => panic!("expected reset, got {other:?}"),
    }
    // proper trailers are delivered and close the remote side
    let mut conn = opened_conn(32);
    conn.on_bytes(&wire(0x1, 0x4, 1, &block)).unwrap();
    let trailer_block = encode_request_headers(&[(b"checksum", b"zz")]);
    let acts = conn.on_bytes(&wire(0x1, 0x5, 1, &trailer_block)).unwrap();
    match &acts[0] {
        Action::DeliverTrailers { stream_id, trailers } => {
            assert_eq!(*stream_id, 1);
            assert_eq!(trailers.len(), 1);
            assert_eq!(trailers[0].name, b"checksum");
        }
        other => panic!("expected trailers, got {other:?}"),
    }
}

#[test]
fn compression_error_on_garbage_block() {
    let mut conn = opened_conn(32);
    // 0x40 introduces a literal with incremental indexing and a bogus
    // length that runs past the payload
    let err = conn.on_bytes(&wire(0x1, 0x5, 1, &[0x40, 0x7f])).unwrap_err();
    assert_eq!(err, H2ConnectionError::CompressionError);
    assert_eq!(goaway_code(&mut conn, err), KnownErrorCode::CompressionError.repr());
}

#[test]
fn truncated_size_update_is_a_compression_error() {
    // a size-update field (tag 001xxxxx) whose prefix integer asks for
    // continuation octets the block does not carry
    let mut conn = opened_conn(32);
    let err = conn.on_bytes(&wire(0x1, 0x5, 1, &[0x3f])).unwrap_err();
    assert_eq!(err, H2ConnectionError::CompressionError);
}

#[test]
fn overlong_size_update_is_a_compression_error() {
    // a size-update integer running past the codec's five-octet limit
    let mut conn = opened_conn(32);
    let err = conn
        .on_bytes(&wire(0x1, 0x5, 1, &[0x3f, 0x80, 0x80, 0x80, 0x80]))
        .unwrap_err();
    assert_eq!(err, H2ConnectionError::CompressionError);
}

#[test]
fn well_formed_size_update_is_decoded() {
    // size update to 31 + 0 (two octets), then an indexed field from the
    // static table; the block decodes, and the lone ":method: GET" is a
    // malformed request (no :scheme or :path), so the stream is reset
    let mut conn = opened_conn(32);
    let acts = conn.on_bytes(&wire(0x1, 0x5, 1, &[0x3f, 0x00, 0x82])).unwrap();
    assert_eq!(acts.len(), 1);
    match &acts[0] {
        Action::WriteFrame(f) => {
            assert_eq!(f.frame.frame_type, FrameType::RstStream);
            let code = u32::from_be_bytes([f.payload[0], f.payload[1], f.payload[2], f.payload[3]]);
            assert_eq!(code, KnownErrorCode::ProtocolError.repr());
        }
        other => panic!("expected reset, got {other:?}"),
    }
}

#[test]
fn unknown_frame_type_is_ignored() {
    let mut conn = opened_conn(32);
    assert!(conn.on_bytes(&wire(0x77, 0x3, 9, b"whatever")).unwrap().is_empty());
}

#[test]
fn body_chunks_are_framed() {
    let mut conn = opened_conn(32);
    let acts = conn
        .on_event(H2Event { stream_id: 1, payload: H2EventPayload::BodyChunk(b"part".to_vec()) })
        .unwrap();
    match &acts[0] {
        Action::WriteFrame(f) => {
            assert_eq!(f.frame.frame_type, FrameType::Data);
            assert_eq!(f.frame.flags, 0);
            assert_eq!(f.frame.len, 4);
            assert_eq!(&f.payload[..], b"part");
        }
        other => panic!("expected data frame, got {other:?}"),
    }
}

#[test]
fn response_headers_strip_transfer_encoding() {
    let mut conn = opened_conn(32);
    let acts = conn
        .on_event(H2Event {
            stream_id: 1,
            payload: H2EventPayload::Headers(Response {
                status: 200,
                headers: vec![
                    h2core::types::HeaderField {
                        name: b"transfer-encoding".to_vec(),
                        value: b"chunked".to_vec(),
                    },
                    h2core::types::HeaderField {
                        name: b"server".to_vec(),
                        value: b"check".to_vec(),
                    },
                ],
            }),
        })
        .unwrap();
    match &acts[0] {
        Action::WriteFrame(f) => {
            let mut dec = hpack::Decoder::new();
            let pairs = dec.decode(&f.payload).unwrap();
            assert_eq!(
                pairs,
                vec![
                    (b":status".to_vec(), b"200".to_vec()),
                    (b"server".to_vec(), b"check".to_vec()),
                ]
            );
        }
        other => panic!("expected headers, got {other:?}"),
    }
}
