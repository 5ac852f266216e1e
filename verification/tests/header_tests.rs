use h2core::headers::{validate_request_headers, validate_trailers};
use h2core::types::{H2StreamError, HeaderField};

fn field(name: &[u8], value: &[u8]) -> HeaderField {
    HeaderField { name: name.to_vec(), value: value.to_vec() }
}

#[test]
fn request_with_all_parts() {
    let pairs = vec![
        field(b":method", b"GET"),
        field(b":scheme", b"https"),
        field(b":path", b"/index"),
        field(b":authority", b"example"),
        field(b"accept", b"*/*"),
    ];
    let req = validate_request_headers(&pairs).unwrap();
    assert_eq!(req.method, b"GET");
    assert_eq!(req.scheme, b"https");
    assert_eq!(req.path, b"/index");
    assert_eq!(req.authority.as_deref(), Some(&b"example"[..]));
    assert_eq!(req.headers.len(), 1);
    assert_eq!(req.headers[0].name, b"accept");
}

#[test]
fn host_supplies_missing_authority() {
    let pairs = vec![
        field(b":method", b"GET"),
        field(b":scheme", b"http"),
        field(b":path", b"/"),
        field(b"host", b"fallback"),
    ];
    let req = validate_request_headers(&pairs).unwrap();
    assert_eq!(req.authority.as_deref(), Some(&b"fallback"[..]));
}

#[test]
fn pseudo_after_regular_is_malformed() {
    let pairs = vec![
        field(b":method", b"GET"),
        field(b"accept", b"*/*"),
        field(b":scheme", b"http"),
        field(b":path", b"/"),
    ];
    assert_eq!(validate_request_headers(&pairs), Err(H2StreamError::MalformedRequest));
}

#[test]
fn duplicate_pseudo_is_malformed() {
    for dup in [&b":method"[..], b":scheme", b":path", b":authority"] {
        let mut pairs = vec![
            field(b":method", b"GET"),
            field(b":scheme", b"http"),
            field(b":path", b"/"),
            field(b":authority", b"x"),
        ];
        pairs.push(field(dup, b"again"));
        assert_eq!(
            validate_request_headers(&pairs),
            Err(H2StreamError::MalformedRequest),
            "duplicate {:?} accepted",
            String::from_utf8_lossy(dup)
        );
    }
}

#[test]
fn empty_path_is_malformed() {
    let pairs = vec![
        field(b":method", b"GET"),
        field(b":scheme", b"http"),
        field(b":path", b""),
        field(b":authority", b"x"),
    ];
    assert_eq!(validate_request_headers(&pairs), Err(H2StreamError::MalformedRequest));
}

#[test]
fn missing_required_pseudo_is_malformed() {
    let pairs = vec![field(b":method", b"GET"), field(b":scheme", b"http")];
    assert_eq!(validate_request_headers(&pairs), Err(H2StreamError::MalformedRequest));
}

#[test]
fn unknown_pseudo_is_ignored() {
    let pairs = vec![
        field(b":method", b"GET"),
        field(b":status", b"200"),
        field(b":scheme", b"http"),
        field(b":path", b"/"),
        field(b":authority", b"x"),
    ];
    let req = validate_request_headers(&pairs).unwrap();
    assert!(req.headers.is_empty());
}

#[test]
fn trailers_reject_pseudo_headers() {
    let pairs = vec![field(b"checksum", b"ok"), field(b":status", b"200")];
    assert_eq!(validate_trailers(pairs), Err(H2StreamError::MalformedRequest));
    let pairs = vec![field(b"checksum", b"ok")];
    let t = validate_trailers(pairs).unwrap();
    assert_eq!(t.len(), 1);
    assert_eq!(t[0].name, b"checksum");
}
