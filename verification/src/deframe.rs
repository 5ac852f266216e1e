//! The deframer: buffers raw transport bytes, cuts them into validated
//! `(header, payload)` pairs, enforces the advertised maximum frame size
//! before a payload is even read, and strips padding at the codec
//! boundary so nothing above ever sees pad bytes.

use vstd::prelude::*;
use crate::frame::{
    flag_set, has_flag, parse_frame_header, spec_frame_header, Frame, FrameType, FLAG_PADDED,
    FRAME_HEADER_LEN,
};
use crate::types::H2ConnectionError;

verus! {

/// Whether this frame type carries the PADDED flag meaningfully.
pub open spec fn spec_has_padding(f: Frame) -> bool {
    (f.frame_type is Data || f.frame_type is Headers) && has_flag(f.flags, FLAG_PADDED)
}

/// What stripping does to a padded payload: the first byte is the pad
/// length, the pad bytes sit at the end, and both are dropped.
pub open spec fn spec_strip(f: Frame, p: Seq<u8>) -> Result<(Frame, Seq<u8>), H2ConnectionError> {
    if !spec_has_padding(f) {
        Ok((f, p))
    } else if p.len() == 0 {
        Err(H2ConnectionError::PaddedFrameEmpty { frame_type: f.frame_type })
    } else if p.len() - 1 < p[0] {
        Err(H2ConnectionError::PaddedFrameTooShort {
            frame_type: f.frame_type,
            padding_length: p[0] as u32,
            frame_size: f.len,
        })
    } else {
        Ok(
            (
                Frame { len: (p.len() - 1 - p[0]) as u32, ..f },
                p.subrange(1, p.len() - p[0] as int),
            ),
        )
    }
}

/// Strips padding from a DATA or HEADERS payload; a pad length that
/// swallows the whole payload is a connection error. The returned header
/// carries the stripped length.
pub fn strip_padding(frame: Frame, payload: Vec<u8>) -> (r: Result<
    (Frame, Vec<u8>),
    H2ConnectionError,
>)
    requires
        frame.wf(),
        payload@.len() == frame.len,
    ensures
        match spec_strip(frame, payload@) {
            Ok(t) => r matches Ok(o) && o.0 == t.0 && o.1@ == t.1 && o.0.wf() && o.0.len
                == o.1@.len(),
            Err(e) => r == Err::<(Frame, Vec<u8>), _>(e),
        },
{
    let padded = match frame.frame_type {
        FrameType::Data => flag_set(frame.flags, FLAG_PADDED),
        FrameType::Headers => flag_set(frame.flags, FLAG_PADDED),
        _ => false,
    };
    if !padded {
        return Ok((frame, payload));
    }
    if payload.len() == 0 {
        return Err(H2ConnectionError::PaddedFrameEmpty { frame_type: frame.frame_type });
    }
    let pad_len = payload[0] as usize;
    let mut payload = payload;
    let ghost orig = payload@;
    let mut body = payload.split_off(1);
    if body.len() < pad_len {
        return Err(H2ConnectionError::PaddedFrameTooShort {
            frame_type: frame.frame_type,
            padding_length: payload[0] as u32,
            frame_size: frame.len,
        });
    }
    let keep = body.len() - pad_len;
    body.truncate(keep);
    let stripped = Frame { len: keep as u32, ..frame };
    proof {
        assert(body@ =~= orig.subrange(1, orig.len() - orig[0] as int));
    }
    Ok((stripped, body))
}

/// What one buffer state yields when frames are cut from it until more
/// bytes are needed: the frames in wire order, each with its
/// padding-stripped payload, and the leftover state. `Failed` is a state
/// whose next frame the deframer refuses (over the size limit, or bad
/// padding); which frame the processor then chokes on is that run's
/// business, so `Failed` carries nothing.
#[verifier::ext_equal]
pub enum SpecDrain {
    Frames { frames: Seq<(Frame, Seq<u8>)>, buf: Seq<u8>, pending: Option<Frame> },
    Failed,
}

/// Frames already cut prepended to a drain result.
pub open spec fn spec_drain_extend(pre: Seq<(Frame, Seq<u8>)>, d: SpecDrain) -> SpecDrain {
    match d {
        SpecDrain::Frames { frames, buf, pending } => SpecDrain::Frames {
            frames: pre + frames,
            buf,
            pending,
        },
        SpecDrain::Failed => SpecDrain::Failed,
    }
}

/// The frames a buffer state yields, as a pure function of the bytes:
/// exactly what repeated `next_frame` calls produce.
pub open spec fn spec_drain(buf: Seq<u8>, pending: Option<Frame>, max: u32) -> SpecDrain
    decreases 2 * buf.len() + (if pending is Some {
        1int
    } else {
        0int
    }),
{
    match pending {
        Some(h) => {
            if buf.len() < h.len {
                SpecDrain::Frames { frames: Seq::empty(), buf, pending }
            } else {
                match spec_strip(h, buf.take(h.len as int)) {
                    Ok(t) => spec_drain_extend(
                        seq![(t.0, t.1)],
                        spec_drain(buf.skip(h.len as int), None, max),
                    ),
                    Err(e) => SpecDrain::Failed,
                }
            }
        },
        None => {
            if buf.len() < FRAME_HEADER_LEN {
                SpecDrain::Frames { frames: Seq::empty(), buf, pending: None }
            } else {
                let h = spec_frame_header(buf);
                if h.len > max {
                    SpecDrain::Failed
                } else {
                    spec_drain(buf.skip(FRAME_HEADER_LEN as int), Some(h), max)
                }
            }
        },
    }
}

/// Prepending cut frames composes.
pub proof fn lemma_drain_extend_assoc(
    a: Seq<(Frame, Seq<u8>)>,
    b: Seq<(Frame, Seq<u8>)>,
    d: SpecDrain,
)
    ensures
        spec_drain_extend(a, spec_drain_extend(b, d)) == spec_drain_extend(a + b, d),
{
    match d {
        SpecDrain::Frames { frames, buf, pending } => {
            assert(a + (b + frames) =~= (a + b) + frames);
            assert(spec_drain_extend(a, spec_drain_extend(b, d)) =~= spec_drain_extend(a + b, d));
        },
        SpecDrain::Failed => {},
    }
}

/// Nothing cut yet extends to the result itself.
pub proof fn lemma_drain_extend_empty(d: SpecDrain)
    ensures
        spec_drain_extend(Seq::empty(), d) == d,
{
    match d {
        SpecDrain::Frames { frames, buf, pending } => {
            assert(Seq::empty() + frames =~= frames);
            assert(spec_drain_extend(Seq::empty(), d) =~= d);
        },
        SpecDrain::Failed => {},
    }
}

/// Bytes read from the transport but not yet cut into frames, plus a
/// header whose payload has not fully arrived.
pub struct Deframer {
    pub buf: Vec<u8>,
    pub pending: Option<Frame>,
}

impl Deframer {
    pub open spec fn wf(self) -> bool {
        self.pending matches Some(f) ==> f.wf() && f.len > 0
    }

    pub fn new() -> (r: Deframer)
        ensures
            r.wf(),
            r.buf@.len() == 0,
            r.pending is None,
    {
        Deframer { buf: Vec::new(), pending: None }
    }

    /// More bytes from the transport.
    pub fn push_bytes(&mut self, input: &[u8])
        requires
            old(self).wf(),
        ensures
            final(self).wf(),
            final(self).buf@ == old(self).buf@ + input@,
            final(self).pending == old(self).pending,
    {
        self.buf.extend_from_slice(input);
    }

    /// Drops `n` leading bytes, as the preface is consumed before framing
    /// starts.
    pub fn consume(&mut self, n: usize)
        requires
            old(self).wf(),
            old(self).pending is None,
            n <= old(self).buf@.len(),
        ensures
            final(self).wf(),
            final(self).buf@ == old(self).buf@.skip(n as int),
            final(self).pending is None,
    {
        let tail = self.buf.split_off(n);
        self.buf = tail;
    }

    /// Whether the peer may hang up here without error: no partial frame
    /// is buffered.
    pub fn eof_is_clean(&self) -> (r: bool)
        ensures
            r == (self.buf@.len() == 0 && self.pending is None),
    {
        self.buf.len() == 0 && self.pending.is_none()
    }

    /// The header of the partial frame, for the error that reports a
    /// connection cut mid-frame.
    pub fn pending_frame(&self) -> (r: Option<Frame>)
        ensures
            r == self.pending,
    {
        self.pending
    }

    /// Cuts the next complete frame out of the buffer: reads the 9-byte
    /// header, refuses a length over `max_frame_size` before the payload
    /// is consumed, waits for the payload, and strips padding. `None`
    /// means more bytes are needed.
    pub fn next_frame(&mut self, max_frame_size: u32) -> (r: Result<
        Option<(Frame, Vec<u8>)>,
        H2ConnectionError,
    >)
        requires
            old(self).wf(),
        ensures
            final(self).wf(),
            match r {
                Ok(Some(fp)) => fp.0.wf() && fp.0.len == fp.1@.len(),
                _ => true,
            },
            (old(self).pending is None && old(self).buf@.len() < FRAME_HEADER_LEN) ==> (r == Ok::<
                Option<(Frame, Vec<u8>)>,
                H2ConnectionError,
            >(None) && *final(self) == *old(self)),
            (old(self).pending is None && old(self).buf@.len() >= FRAME_HEADER_LEN
                && spec_frame_header(old(self).buf@).len > max_frame_size) ==> r == Err::<
                Option<(Frame, Vec<u8>)>,
                _,
            >(H2ConnectionError::FrameTooLarge {
                frame_type: spec_frame_header(old(self).buf@).frame_type,
                frame_size: spec_frame_header(old(self).buf@).len,
                max_frame_size,
            }),
            (old(self).pending is None && old(self).buf@.len() >= FRAME_HEADER_LEN
                && spec_frame_header(old(self).buf@).len <= max_frame_size) ==> {
                let h = spec_frame_header(old(self).buf@);
                let rest = old(self).buf@.skip(FRAME_HEADER_LEN as int);
                &&& (rest.len() < h.len ==> r == Ok::<Option<(Frame, Vec<u8>)>,
                    H2ConnectionError,
                >(None) && final(self).pending == Some(h) && final(self).buf@ == rest)
                &&& (rest.len() >= h.len ==> {
                    &&& final(self).pending is None
                    &&& final(self).buf@ == rest.skip(h.len as int)
                    &&& match spec_strip(h, rest.take(h.len as int)) {
                        Ok(t) => r matches Ok(o) && o matches Some(fp) && fp.0 == t.0 && fp.1@
                            == t.1,
                        Err(e) => r == Err::<Option<(Frame, Vec<u8>)>, _>(e),
                    }
                })
            },
            (old(self).pending is Some) ==> {
                let h = old(self).pending.unwrap();
                &&& (old(self).buf@.len() < h.len ==> r == Ok::<Option<(Frame, Vec<u8>)>,
                    H2ConnectionError,
                >(None) && *final(self) == *old(self))
                &&& (old(self).buf@.len() >= h.len ==> {
                    &&& final(self).pending is None
                    &&& final(self).buf@ == old(self).buf@.skip(h.len as int)
                    &&& match spec_strip(h, old(self).buf@.take(h.len as int)) {
                        Ok(t) => r matches Ok(o) && o matches Some(fp) && fp.0 == t.0 && fp.1@
                            == t.1,
                        Err(e) => r == Err::<Option<(Frame, Vec<u8>)>, _>(e),
                    }
                })
            },
    {
        if self.pending.is_none() {
            if self.buf.len() < FRAME_HEADER_LEN {
                return Ok(None);
            }
            let frame = match parse_frame_header(self.buf.as_slice()) {
                Some(f) => f,
                None => {
                    proof {
                        assert(false);
                    }
                    return Ok(None);
                },
            };
            if frame.len > max_frame_size {
                return Err(H2ConnectionError::FrameTooLarge {
                    frame_type: frame.frame_type,
                    frame_size: frame.len,
                    max_frame_size,
                });
            }
            let tail = self.buf.split_off(FRAME_HEADER_LEN);
            self.buf = tail;
            self.pending = Some(frame);
        }
        let frame = match self.pending {
            Some(f) => f,
            None => {
                proof {
                    assert(false);
                }
                return Ok(None);
            },
        };
        let plen = frame.len as usize;
        if self.buf.len() < plen {
            return Ok(None);
        }
        let mut rest = self.buf.split_off(plen);
        core::mem::swap(&mut self.buf, &mut rest);
        let payload = rest;
        self.pending = None;
        match strip_padding(frame, payload) {
            Ok((f, p)) => Ok(Some((f, p))),
            Err(e) => Err(e),
        }
    }
}

} // verus!
