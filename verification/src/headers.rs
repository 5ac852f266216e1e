//! Validation of a decoded header block: pseudo-headers must precede
//! regular fields, none of the four request pseudo-headers may repeat,
//! `:path` may not be empty, trailers may not carry pseudo-headers at
//! all, and a `host` field supplies the authority when `:authority` is
//! absent. A block that passes yields the request the handler is spawned
//! with; one that fails is a malformed request.

use vstd::prelude::*;
use crate::types::{H2StreamError, HeaderField, Request};

verus! {

/// The view of an optional byte string.
pub open spec fn opt_bytes_view(o: Option<Vec<u8>>) -> Option<Seq<u8>> {
    match o {
        Some(v) => Some(v@),
        None => None,
    }
}

/// Name/value pairs as raw byte sequences.
pub open spec fn fields_view(hs: Seq<HeaderField>) -> Seq<(Seq<u8>, Seq<u8>)> {
    hs.map_values(|h: HeaderField| (h.name@, h.value@))
}

/// A pseudo-header starts with a colon.
pub open spec fn spec_is_pseudo(name: Seq<u8>) -> bool {
    name.len() > 0 && name[0] == 0x3au8
}

pub open spec fn spec_name_method() -> Seq<u8> {
    seq![0x3au8, 0x6du8, 0x65u8, 0x74u8, 0x68u8, 0x6fu8, 0x64u8]
}

pub open spec fn spec_name_scheme() -> Seq<u8> {
    seq![0x3au8, 0x73u8, 0x63u8, 0x68u8, 0x65u8, 0x6du8, 0x65u8]
}

pub open spec fn spec_name_path() -> Seq<u8> {
    seq![0x3au8, 0x70u8, 0x61u8, 0x74u8, 0x68u8]
}

pub open spec fn spec_name_authority() -> Seq<u8> {
    seq![0x3au8, 0x61u8, 0x75u8, 0x74u8, 0x68u8, 0x6fu8, 0x72u8, 0x69u8, 0x74u8, 0x79u8]
}

pub open spec fn spec_name_host() -> Seq<u8> {
    seq![0x68u8, 0x6fu8, 0x73u8, 0x74u8]
}

/// Running state of the header-block walk.
#[verifier::ext_equal]
pub struct HeaderAcc {
    pub method: Option<Seq<u8>>,
    pub scheme: Option<Seq<u8>>,
    pub path: Option<Seq<u8>>,
    pub authority: Option<Seq<u8>>,
    pub regular: Seq<(Seq<u8>, Seq<u8>)>,
    pub seen_regular: bool,
}

pub open spec fn spec_acc_init() -> HeaderAcc {
    HeaderAcc {
        method: None,
        scheme: None,
        path: None,
        authority: None,
        regular: Seq::empty(),
        seen_regular: false,
    }
}

/// One field applied to the walk; `None` is a malformed request.
pub open spec fn spec_header_step(a: HeaderAcc, name: Seq<u8>, value: Seq<u8>) -> Option<
    HeaderAcc,
> {
    if spec_is_pseudo(name) {
        if a.seen_regular {
            None
        } else if name == spec_name_method() {
            if a.method is Some {
                None
            } else {
                Some(HeaderAcc { method: Some(value), ..a })
            }
        } else if name == spec_name_scheme() {
            if a.scheme is Some {
                None
            } else {
                Some(HeaderAcc { scheme: Some(value), ..a })
            }
        } else if name == spec_name_path() {
            if a.path is Some || value.len() == 0 {
                None
            } else {
                Some(HeaderAcc { path: Some(value), ..a })
            }
        } else if name == spec_name_authority() {
            if a.authority is Some {
                None
            } else {
                Some(HeaderAcc { authority: Some(value), ..a })
            }
        } else {
            // an unknown pseudo-header is ignored
            Some(a)
        }
    } else {
        Some(HeaderAcc { regular: a.regular.push((name, value)), seen_regular: true, ..a })
    }
}

/// The walk over all fields from index `i`.
pub open spec fn spec_fold_headers(pairs: Seq<(Seq<u8>, Seq<u8>)>, i: int, a: HeaderAcc) -> Option<
    HeaderAcc,
>
    decreases pairs.len() - i,
{
    if i < 0 || i >= pairs.len() {
        Some(a)
    } else {
        match spec_header_step(a, pairs[i].0, pairs[i].1) {
            Some(a2) => spec_fold_headers(pairs, i + 1, a2),
            None => None,
        }
    }
}

/// First `host` field among the regular headers, if any.
pub open spec fn spec_find_host(regular: Seq<(Seq<u8>, Seq<u8>)>, i: int) -> Option<Seq<u8>>
    decreases regular.len() - i,
{
    if i < 0 || i >= regular.len() {
        None
    } else if regular[i].0 == spec_name_host() {
        Some(regular[i].1)
    } else {
        spec_find_host(regular, i + 1)
    }
}

/// The request denoted by a validated header block.
#[verifier::ext_equal]
pub struct RequestView {
    pub method: Seq<u8>,
    pub scheme: Seq<u8>,
    pub path: Seq<u8>,
    pub authority: Option<Seq<u8>>,
    pub headers: Seq<(Seq<u8>, Seq<u8>)>,
}

impl View for Request {
    type V = RequestView;

    open spec fn view(&self) -> RequestView {
        RequestView {
            method: self.method@,
            scheme: self.scheme@,
            path: self.path@,
            authority: match self.authority {
                Some(a) => Some(a@),
                None => None,
            },
            headers: fields_view(self.headers@),
        }
    }
}

/// The three required pseudo-headers must be present; the authority falls
/// back to the `host` field.
pub open spec fn spec_finish_headers(a: HeaderAcc) -> Option<RequestView> {
    if a.method is Some && a.scheme is Some && a.path is Some {
        Some(RequestView {
            method: a.method.unwrap(),
            scheme: a.scheme.unwrap(),
            path: a.path.unwrap(),
            authority: if a.authority is Some {
                a.authority
            } else {
                spec_find_host(a.regular, 0)
            },
            headers: a.regular,
        })
    } else {
        None
    }
}

/// The request a decoded header block denotes, or `None` when the block
/// is a malformed request.
pub open spec fn spec_accept_headers(pairs: Seq<(Seq<u8>, Seq<u8>)>) -> Option<RequestView> {
    match spec_fold_headers(pairs, 0, spec_acc_init()) {
        Some(a) => spec_finish_headers(a),
        None => None,
    }
}

/// Byte-for-byte equality of two byte strings.
pub fn bytes_eq(a: &[u8], b: &[u8]) -> (r: bool)
    ensures
        r == (a@ == b@),
{
    if a.len() != b.len() {
        assert(a@ != b@);
        return false;
    }
    let n = a.len();
    let mut i: usize = 0;
    while i < n
        invariant
            0 <= i <= n,
            a@.len() == n,
            b@.len() == n,
            forall|j: int| 0 <= j < i ==> a@[j] == b@[j],
        decreases n - i,
    {
        if *vstd::slice::slice_index_get(a, i) != *vstd::slice::slice_index_get(b, i) {
            return false;
        }
        i += 1;
    }
    proof {
        assert(a@ =~= b@);
    }
    true
}

fn name_method() -> (r: Vec<u8>)
    ensures
        r@ =~= spec_name_method(),
{
    vec![0x3au8, 0x6du8, 0x65u8, 0x74u8, 0x68u8, 0x6fu8, 0x64u8]
}

fn name_scheme() -> (r: Vec<u8>)
    ensures
        r@ =~= spec_name_scheme(),
{
    vec![0x3au8, 0x73u8, 0x63u8, 0x68u8, 0x65u8, 0x6du8, 0x65u8]
}

fn name_path() -> (r: Vec<u8>)
    ensures
        r@ =~= spec_name_path(),
{
    vec![0x3au8, 0x70u8, 0x61u8, 0x74u8, 0x68u8]
}

fn name_authority() -> (r: Vec<u8>)
    ensures
        r@ =~= spec_name_authority(),
{
    vec![0x3au8, 0x61u8, 0x75u8, 0x74u8, 0x68u8, 0x6fu8, 0x72u8, 0x69u8, 0x74u8, 0x79u8]
}

fn name_host() -> (r: Vec<u8>)
    ensures
        r@ =~= spec_name_host(),
{
    vec![0x68u8, 0x6fu8, 0x73u8, 0x74u8]
}

/// First `host` field among `fields`, if any.
fn find_host(fields: &Vec<HeaderField>) -> (r: Option<Vec<u8>>)
    ensures
        match r {
            Some(v) => spec_find_host(fields_view(fields@), 0) == Some(v@),
            None => spec_find_host(fields_view(fields@), 0) is None,
        },
{
    let host = name_host();
    let n = fields.len();
    let mut i: usize = 0;
    while i < n
        invariant
            0 <= i <= n,
            fields@.len() == n,
            host@ =~= spec_name_host(),
            spec_find_host(fields_view(fields@), 0) == spec_find_host(
                fields_view(fields@),
                i as int,
            ),
        decreases n - i,
    {
        if bytes_eq(fields[i].name.as_slice(), host.as_slice()) {
            assert(fields_view(fields@)[i as int].0 == spec_name_host());
            return Some(fields[i].value.clone());
        }
        assert(fields_view(fields@)[i as int].0 != spec_name_host());
        i += 1;
    }
    None
}

/// Validates a request header block and assembles the request, or reports
/// it malformed: a pseudo-header after a regular field, a repeated or
/// empty-valued `:path`, a repeated `:method`/`:scheme`/`:authority`, or a
/// missing required pseudo-header.
pub fn validate_request_headers(pairs: &Vec<HeaderField>) -> (r: Result<Request, H2StreamError>)
    ensures
        match r {
            Ok(req) => spec_accept_headers(fields_view(pairs@)) == Some(req@),
            Err(e) => e == H2StreamError::MalformedRequest && spec_accept_headers(
                fields_view(pairs@),
            ) is None,
        },
{
    let nm_method = name_method();
    let nm_scheme = name_scheme();
    let nm_path = name_path();
    let nm_authority = name_authority();

    let mut method: Option<Vec<u8>> = None;
    let mut scheme: Option<Vec<u8>> = None;
    let mut path: Option<Vec<u8>> = None;
    let mut authority: Option<Vec<u8>> = None;
    let mut regular: Vec<HeaderField> = Vec::new();
    let mut seen_regular: bool = false;

    let ghost pview = fields_view(pairs@);
    proof {
        assert(fields_view(regular@) =~= Seq::<(Seq<u8>, Seq<u8>)>::empty());
        assert(HeaderAcc {
            method: opt_bytes_view(method),
            scheme: opt_bytes_view(scheme),
            path: opt_bytes_view(path),
            authority: opt_bytes_view(authority),
            regular: fields_view(regular@),
            seen_regular: seen_regular,
        } =~= spec_acc_init());
    }
    let n = pairs.len();
    let mut i: usize = 0;
    while i < n
        invariant
            0 <= i <= n,
            pairs@.len() == n,
            pview == fields_view(pairs@),
            nm_method@ =~= spec_name_method(),
            nm_scheme@ =~= spec_name_scheme(),
            nm_path@ =~= spec_name_path(),
            nm_authority@ =~= spec_name_authority(),
            spec_fold_headers(pview, 0, spec_acc_init()) == spec_fold_headers(
                pview,
                i as int,
                HeaderAcc {
                    method: opt_bytes_view(method),
                    scheme: opt_bytes_view(scheme),
                    path: opt_bytes_view(path),
                    authority: opt_bytes_view(authority),
                    regular: fields_view(regular@),
                    seen_regular: seen_regular,
                },
            ),
        decreases n - i,
    {
        let ghost acc_before = HeaderAcc {
            method: opt_bytes_view(method),
            scheme: opt_bytes_view(scheme),
            path: opt_bytes_view(path),
            authority: opt_bytes_view(authority),
            regular: fields_view(regular@),
            seen_regular: seen_regular,
        };
        let name = &pairs[i].name;
        let value = &pairs[i].value;
        let is_pseudo = name.len() > 0 && name[0] == 0x3au8;
        assert(is_pseudo == spec_is_pseudo(pview[i as int].0));
        proof {
            assert(pview[i as int] == (pairs@[i as int].name@, pairs@[i as int].value@));
        }
        if is_pseudo {
            if seen_regular {
                proof {
                    assert(spec_fold_headers(pview, i as int, acc_before) is None);
                }
                return Err(H2StreamError::MalformedRequest);
            }
            if bytes_eq(name.as_slice(), nm_method.as_slice()) {
                if method.is_some() {
                    proof {
                        assert(spec_fold_headers(pview, i as int, acc_before) is None);
                    }
                    return Err(H2StreamError::MalformedRequest);
                }
                method = Some(value.clone());
            } else if bytes_eq(name.as_slice(), nm_scheme.as_slice()) {
                if scheme.is_some() {
                    proof {
                        assert(spec_fold_headers(pview, i as int, acc_before) is None);
                    }
                    return Err(H2StreamError::MalformedRequest);
                }
                scheme = Some(value.clone());
            } else if bytes_eq(name.as_slice(), nm_path.as_slice()) {
                if path.is_some() || value.len() == 0 {
                    proof {
                        assert(spec_fold_headers(pview, i as int, acc_before) is None);
                    }
                    return Err(H2StreamError::MalformedRequest);
                }
                path = Some(value.clone());
            } else if bytes_eq(name.as_slice(), nm_authority.as_slice()) {
                if authority.is_some() {
                    proof {
                        assert(spec_fold_headers(pview, i as int, acc_before) is None);
                    }
                    return Err(H2StreamError::MalformedRequest);
                }
                authority = Some(value.clone());
            }
        } else {
            regular.push(HeaderField { name: name.clone(), value: value.clone() });
            seen_regular = true;
        }
        proof {
            let acc_after = HeaderAcc {
                method: opt_bytes_view(method),
                scheme: opt_bytes_view(scheme),
                path: opt_bytes_view(path),
                authority: opt_bytes_view(authority),
                regular: fields_view(regular@),
                seen_regular: seen_regular,
            };
            let stepped = spec_header_step(acc_before, pview[i as int].0, pview[i as int].1);
            assert(stepped is Some);
            if !spec_is_pseudo(pview[i as int].0) {
                assert(fields_view(regular@) =~= acc_before.regular.push(
                    (pview[i as int].0, pview[i as int].1),
                ));
            }
            assert(acc_after =~= stepped.unwrap());
        }
        i += 1;
    }

    let ghost acc_final = HeaderAcc {
        method: opt_bytes_view(method),
        scheme: opt_bytes_view(scheme),
        path: opt_bytes_view(path),
        authority: opt_bytes_view(authority),
        regular: fields_view(regular@),
        seen_regular: seen_regular,
    };
    proof {
        assert(spec_fold_headers(pview, i as int, acc_final) == Some(acc_final));
    }

    let (method, scheme, path) = match (method, scheme, path) {
        (Some(m), Some(s), Some(p)) => (m, s, p),
        _ => {
            proof {
                assert(spec_finish_headers(acc_final) is None);
            }
            return Err(H2StreamError::MalformedRequest);
        },
    };

    let authority = match authority {
        Some(a) => Some(a),
        None => find_host(&regular),
    };

    let req = Request { method, scheme, path, authority, headers: regular };
    proof {
        assert(spec_finish_headers(acc_final) is Some);
        assert(req@ =~= spec_finish_headers(acc_final).unwrap());
    }
    Ok(req)
}

/// Validates a trailer block: any pseudo-header makes it malformed; a
/// valid block is handed back as the trailer fields, unchanged.
pub fn validate_trailers(pairs: Vec<HeaderField>) -> (r: Result<Vec<HeaderField>, H2StreamError>)
    ensures
        match r {
            Ok(t) => t == pairs && forall|j: int|
                0 <= j < pairs@.len() ==> !spec_is_pseudo(#[trigger] pairs@[j].name@),
            Err(e) => e == H2StreamError::MalformedRequest && exists|j: int|
                0 <= j < pairs@.len() && spec_is_pseudo(#[trigger] pairs@[j].name@),
        },
{
    let n = pairs.len();
    let mut i: usize = 0;
    while i < n
        invariant
            0 <= i <= n,
            pairs@.len() == n,
            forall|j: int| 0 <= j < i ==> !spec_is_pseudo(#[trigger] pairs@[j].name@),
        decreases n - i,
    {
        let name = &pairs[i].name;
        if name.len() > 0 && name[0] == 0x3au8 {
            assert(spec_is_pseudo(pairs@[i as int].name@));
            return Err(H2StreamError::MalformedRequest);
        }
        i += 1;
    }
    Ok(pairs)
}

} // verus!
