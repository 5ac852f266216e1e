//! The server connection driver: consumes the 24-byte client preface,
//! answers it with this server's SETTINGS, then feeds every complete
//! frame to the processor. A connection error closes the connection; the
//! GOAWAY that reports it is emitted exactly once, and after it nothing
//! is emitted at all.

use vstd::prelude::*;
use crate::deframe::{
    lemma_drain_extend_assoc, lemma_drain_extend_empty, spec_drain, spec_drain_extend, Deframer,
    SpecDrain,
};
use crate::frame::{encode_be32, spec_be32, spec_preface, starts_with_preface, Frame, FrameType,
    FRAME_HEADER_LEN, PREFACE_LEN};
use crate::process::Processor;
use crate::settings::spec_parse_settings;
use crate::settings::encode_settings;
use crate::types::{Action, H2Event, H2EventPayload, H2ConnectionError, OutFrame};

verus! {

/// Server configuration: the cap wired into
/// `self_settings.max_concurrent_streams`.
pub struct ServerConf {
    pub max_streams: u32,
}

impl Default for ServerConf {
    fn default() -> (r: ServerConf)
        ensures
            r.max_streams == 32,
    {
        ServerConf { max_streams: 32 }
    }
}

/// One server-side connection: preface phase, deframer, processor, and
/// the two facts that outlive an error: input is no longer processed,
/// and whether the one GOAWAY has already gone out.
pub struct ServerConn {
    pub preface_done: bool,
    pub deframer: Deframer,
    pub processor: Processor,
    pub closed: bool,
    pub goaway_sent: bool,
}

impl ServerConn {
    pub open spec fn wf(self) -> bool {
        &&& self.deframer.wf()
        &&& self.processor.wf()
        &&& (self.goaway_sent ==> self.closed)
        &&& (!self.preface_done ==> self.deframer.pending is None)
    }

    /// Whether a header block is mid-reassembly: the caller must not feed
    /// application events while one is.
    pub open spec fn header_block_active(self) -> bool {
        self.processor.header_block_active()
    }

    pub fn in_header_block(&self) -> (r: bool)
        ensures
            r == self.header_block_active(),
    {
        self.processor.in_header_block()
    }

    pub fn new(conf: &ServerConf) -> (r: ServerConn)
        ensures
            r.wf(),
            !r.closed,
            !r.goaway_sent,
            !r.preface_done,
            r.processor.state.self_settings.max_concurrent_streams == conf.max_streams,
            r.processor.state.last_stream_id == 0,
            r.processor.state.streams@.len() == 0,
    {
        ServerConn {
            preface_done: false,
            deframer: Deframer::new(),
            processor: Processor::new(conf.max_streams),
            closed: false,
            goaway_sent: false,
        }
    }

    /// Bytes read from the transport. While the preface is outstanding
    /// nothing else is interpreted; the moment it completes, this
    /// server's SETTINGS frame is the first action. Every complete frame
    /// then goes through the processor in arrival order. An error stops
    /// all processing; a closed connection swallows input silently.
    pub fn on_bytes(&mut self, input: &[u8]) -> (r: Result<Vec<Action>, H2ConnectionError>)
        requires
            old(self).wf(),
        ensures
            final(self).wf(),
            final(self).goaway_sent == old(self).goaway_sent,
            old(self).closed ==> (r matches Ok(a) && a@.len() == 0 && *final(self) == *old(self)),
            r is Err ==> final(self).closed,
            (final(self).preface_done && !old(self).preface_done) ==> (r matches Ok(a) ==> a@.len()
                >= 1 && (a@[0] matches Action::WriteFrame(f) && f.wf() && f.frame.frame_type
                == FrameType::Settings && f.frame.flags == 0 && f.frame.stream_id == 0 && forall|
                base: crate::settings::Settings,
            |
                #[trigger] spec_parse_settings(f.payload@, base) == Some(
                    final(self).processor.state.self_settings,
                ))),
            final(self).processor.state.self_settings == old(self).processor.state.self_settings,
            old(self).preface_done ==> final(self).preface_done,
            (!old(self).closed && !old(self).preface_done && (old(self).deframer.buf@
                + input@).len() >= PREFACE_LEN && !((old(self).deframer.buf@ + input@).subrange(
                0,
                PREFACE_LEN as int,
            ) =~= spec_preface())) ==> r == Err::<Vec<Action>, H2ConnectionError>(
                H2ConnectionError::InvalidPreface,
            ),
            (!old(self).closed && !old(self).preface_done && (old(self).deframer.buf@
                + input@).len() >= PREFACE_LEN && (old(self).deframer.buf@ + input@).subrange(
                0,
                PREFACE_LEN as int,
            ) =~= spec_preface()) ==> final(self).preface_done,
            (r is Ok && !old(self).closed && final(self).preface_done) ==> ((final(self).deframer.pending is None && final(self).deframer.buf@.len() < FRAME_HEADER_LEN) || (
            final(self).deframer.pending matches Some(h) && final(self).deframer.buf@.len()
                < h.len)),
            (r is Ok && !old(self).closed && final(self).preface_done) ==> {
                let start_buf = if old(self).preface_done {
                    old(self).deframer.buf@ + input@
                } else {
                    (old(self).deframer.buf@ + input@).skip(PREFACE_LEN as int)
                };
                let consumed = final(self).processor.log@.skip(
                    old(self).processor.log@.len() as int,
                );
                &&& final(self).processor.log@.take(old(self).processor.log@.len() as int) == old(self).processor.log@
                &&& spec_drain(
                    start_buf,
                    old(self).deframer.pending,
                    old(self).processor.state.self_settings.max_frame_size,
                ) == (SpecDrain::Frames {
                    frames: consumed,
                    buf: final(self).deframer.buf@,
                    pending: final(self).deframer.pending,
                })
            },
    {
        if self.closed {
            return Ok(Vec::new());
        }
        self.deframer.push_bytes(input);
        let mut actions: Vec<Action> = Vec::new();
        if !self.preface_done {
            if self.deframer.buf.len() < PREFACE_LEN {
                return Ok(actions);
            }
            if !starts_with_preface(self.deframer.buf.as_slice()) {
                self.closed = true;
                return Err(H2ConnectionError::InvalidPreface);
            }
            self.deframer.consume(PREFACE_LEN);
            self.preface_done = true;
            let payload = encode_settings(&self.processor.state.self_settings);
            let frame = Frame {
                frame_type: FrameType::Settings,
                flags: 0,
                len: payload.len() as u32,
                stream_id: 0,
            };
            actions.push(Action::WriteFrame(OutFrame { frame, payload }));
        }
        let ghost b0 = self.deframer.buf@;
        let ghost p0 = self.deframer.pending;
        let ghost base_log = self.processor.log@;
        let ghost max0 = self.processor.state.self_settings.max_frame_size;
        let ghost mut done: Seq<(Frame, Seq<u8>)> = Seq::empty();
        proof {
            lemma_drain_extend_empty(spec_drain(b0, p0, max0));
            assert(base_log + done =~= base_log);
        }
        loop
            invariant
                self.wf(),
                !self.closed,
                !old(self).closed,
                self.preface_done,
                self.goaway_sent == old(self).goaway_sent,
                self.processor.state.self_settings == old(self).processor.state.self_settings,
                max0 == self.processor.state.self_settings.max_frame_size,
                !old(self).preface_done ==> ((old(self).deframer.buf@ + input@).len()
                    >= PREFACE_LEN && (old(self).deframer.buf@ + input@).subrange(
                    0,
                    PREFACE_LEN as int,
                ) =~= spec_preface()),
                self.processor.log@ == base_log + done,
                spec_drain(b0, p0, max0) == spec_drain_extend(
                    done,
                    spec_drain(self.deframer.buf@, self.deframer.pending, max0),
                ),
                !old(self).preface_done ==> (actions@.len() >= 1 && (actions@[0]
                    matches Action::WriteFrame(f) && f.wf() && f.frame.frame_type
                    == FrameType::Settings && f.frame.flags == 0 && f.frame.stream_id == 0
                    && forall|base: crate::settings::Settings|
                    #[trigger] spec_parse_settings(f.payload@, base) == Some(
                        self.processor.state.self_settings,
                    ))),
            ensures
                self.wf(),
                !self.closed,
                self.preface_done,
                self.goaway_sent == old(self).goaway_sent,
                self.processor.state.self_settings == old(self).processor.state.self_settings,
                self.processor.log@ == base_log + done,
                spec_drain(b0, p0, max0) == (SpecDrain::Frames {
                    frames: done,
                    buf: self.deframer.buf@,
                    pending: self.deframer.pending,
                }),
                (self.deframer.pending is None && self.deframer.buf@.len() < FRAME_HEADER_LEN)
                    || (self.deframer.pending matches Some(h) && self.deframer.buf@.len()
                    < h.len),
                !old(self).preface_done ==> (actions@.len() >= 1 && (actions@[0]
                    matches Action::WriteFrame(f) && f.wf() && f.frame.frame_type
                    == FrameType::Settings && f.frame.flags == 0 && f.frame.stream_id == 0
                    && forall|base: crate::settings::Settings|
                    #[trigger] spec_parse_settings(f.payload@, base) == Some(
                        self.processor.state.self_settings,
                    ))),
            decreases
                    2 * self.deframer.buf@.len() + (if self.deframer.pending is Some {
                        0int
                    } else {
                        1int
                    }),
        {
            let max_frame_size = self.processor.state.self_settings.max_frame_size;
            let ghost dbuf = self.deframer.buf@;
            let ghost dpend = self.deframer.pending;
            match self.deframer.next_frame(max_frame_size) {
                Err(e) => {
                    self.closed = true;
                    return Err(e);
                },
                Ok(None) => {
                    proof {
                        // the leftover state yields nothing more
                        match dpend {
                            Some(h) => {
                                assert(spec_drain(dbuf, dpend, max0) == SpecDrain::Frames {
                                    frames: Seq::empty(),
                                    buf: dbuf,
                                    pending: dpend,
                                });
                            },
                            None => {
                                if dbuf.len() >= FRAME_HEADER_LEN {
                                    let h = crate::frame::spec_frame_header(dbuf);
                                    let rest = dbuf.skip(FRAME_HEADER_LEN as int);
                                    assert(spec_drain(dbuf, dpend, max0) == spec_drain(
                                        rest,
                                        Some(h),
                                        max0,
                                    ));
                                    assert(spec_drain(rest, Some(h), max0) == SpecDrain::Frames {
                                        frames: Seq::empty(),
                                        buf: rest,
                                        pending: Some(h),
                                    });
                                }
                            },
                        }
                        assert(spec_drain_extend(
                            done,
                            spec_drain(self.deframer.buf@, self.deframer.pending, max0),
                        ) =~= SpecDrain::Frames {
                            frames: done,
                            buf: self.deframer.buf@,
                            pending: self.deframer.pending,
                        });
                    }
                    break;
                },
                Ok(Some((frame, payload))) => {
                    let ghost pv = payload@;
                    proof {
                        // one drain step is exactly the frame just cut
                        match dpend {
                            Some(h) => {
                                assert(spec_drain(dbuf, dpend, max0) == spec_drain_extend(
                                    seq![(frame, pv)],
                                    spec_drain(self.deframer.buf@, None, max0),
                                ));
                            },
                            None => {
                                let h = crate::frame::spec_frame_header(dbuf);
                                let rest = dbuf.skip(FRAME_HEADER_LEN as int);
                                assert(spec_drain(dbuf, dpend, max0) == spec_drain(
                                    rest,
                                    Some(h),
                                    max0,
                                ));
                                assert(spec_drain(rest, Some(h), max0) == spec_drain_extend(
                                    seq![(frame, pv)],
                                    spec_drain(self.deframer.buf@, None, max0),
                                ));
                            },
                        }
                        lemma_drain_extend_assoc(
                            done,
                            seq![(frame, pv)],
                            spec_drain(self.deframer.buf@, self.deframer.pending, max0),
                        );
                    }
                    match self.processor.on_frame(frame, payload) {
                        Ok(mut acts) => {
                            actions.append(&mut acts);
                        },
                        Err(e) => {
                            self.closed = true;
                            return Err(e);
                        },
                    }
                    proof {
                        done = done + seq![(frame, pv)];
                        assert(self.processor.log@ =~= base_log + done);
                    }
                },
            }
        }
        proof {
            assert((base_log + done).skip(base_log.len() as int) =~= done);
            assert((base_log + done).take(base_log.len() as int) =~= base_log);
        }
        Ok(actions)
    }

    /// An application event, serviced between frames and never inside a
    /// header block. A closed connection emits nothing.
    pub fn on_event(&mut self, ev: H2Event) -> (r: Result<Vec<Action>, H2ConnectionError>)
        requires
            old(self).wf(),
            !old(self).header_block_active(),
            ev.stream_id < 0x8000_0000,
            ev.payload matches H2EventPayload::Headers(res) ==> 100 <= res.status <= 999,
        ensures
            final(self).wf(),
            final(self).goaway_sent == old(self).goaway_sent,
            old(self).closed ==> (r matches Ok(a) && a@.len() == 0 && *final(self) == *old(self)),
            r is Err ==> final(self).closed,
            !old(self).closed ==> {
                let pr = old(self).processor;
                &&& (ev.payload matches H2EventPayload::Headers(res) ==> match r {
                    Ok(a) => a@.len() == 1 && (a@[0] matches Action::WriteFrame(f) && f.wf()
                        && f.frame.frame_type == crate::frame::FrameType::Headers
                        && f.frame.flags == crate::frame::FLAG_END_HEADERS && f.frame.stream_id
                        == ev.stream_id) && final(self).processor.state.streams@
                        == pr.state.streams@,
                    Err(e) => e matches H2ConnectionError::FrameTooLarge { .. },
                })
                &&& (ev.payload matches H2EventPayload::BodyChunk(chunk) ==> (match r {
                    Ok(a) => a@.len() == 1 && (a@[0] matches Action::WriteFrame(f) && f.wf()
                        && f.frame.frame_type == crate::frame::FrameType::Data && f.frame.flags
                        == 0 && f.frame.stream_id == ev.stream_id && f.payload == chunk) && final(self).processor.state.streams@ == pr.state.streams@,
                    Err(e) => e matches H2ConnectionError::FrameTooLarge { .. },
                }) && (r is Ok <==> chunk@.len() < 0x1000000))
                &&& (ev.payload is BodyEnd ==> {
                    &&& r matches Ok(a) && a@.len() == 1 && (a@[0] matches Action::WriteFrame(f)
                        && f.frame == (Frame {
                        frame_type: crate::frame::FrameType::Data,
                        flags: crate::frame::FLAG_END_STREAM,
                        len: 0u32,
                        stream_id: ev.stream_id,
                    }) && f.payload@.len() == 0)
                    &&& ((pr.state.streams@.contains_key(ev.stream_id)
                        && pr.state.streams@[ev.stream_id] is Open) ==> final(self).processor.state.streams@ == pr.state.streams@.insert(
                        ev.stream_id,
                        crate::types::StreamState::HalfClosedLocal,
                    ))
                    &&& ((pr.state.streams@.contains_key(ev.stream_id) && !(
                    pr.state.streams@[ev.stream_id] is Open)) ==> final(self).processor.state.streams@ == pr.state.streams@.remove(ev.stream_id))
                    &&& (!pr.state.streams@.contains_key(ev.stream_id) ==> final(self).processor.state.streams@ == pr.state.streams@)
                })
            },
    {
        if self.closed {
            return Ok(Vec::new());
        }
        match self.processor.on_event(ev) {
            Ok(acts) => Ok(acts),
            Err(e) => {
                self.closed = true;
                Err(e)
            },
        }
    }

    /// The peer hung up. Clean exactly when nothing was in flight: no
    /// partial preface, no partial frame, no open header block.
    pub fn on_eof(&mut self) -> (r: Result<(), H2ConnectionError>)
        requires
            old(self).wf(),
        ensures
            final(self).wf(),
            final(self).closed,
            final(self).goaway_sent == old(self).goaway_sent,
            old(self).closed ==> r == Ok::<(), H2ConnectionError>(()),
            (!old(self).closed && !old(self).preface_done) ==> r == if old(self).deframer.buf@.len() == 0 {
                Ok::<(), H2ConnectionError>(())
            } else {
                Err::<(), H2ConnectionError>(H2ConnectionError::UnexpectedEof)
            },
            (!old(self).closed && old(self).preface_done && old(self).header_block_active()) ==> (
            r matches Err(e) && e matches H2ConnectionError::ExpectedContinuationFrame {
                stream_id,
                frame_type,
            } && frame_type is None),
            (!old(self).closed && old(self).preface_done && !old(self).header_block_active()) ==> r
                == if old(self).deframer.buf@.len() == 0 && old(self).deframer.pending is None {
                Ok::<(), H2ConnectionError>(())
            } else {
                match old(self).deframer.pending {
                    Some(h) => Err::<(), H2ConnectionError>(H2ConnectionError::IncompleteFrame {
                        frame_type: h.frame_type,
                        frame_size: h.len,
                    }),
                    None => Err::<(), H2ConnectionError>(H2ConnectionError::UnexpectedEof),
                }
            },
    {
        if self.closed {
            return Ok(());
        }
        self.closed = true;
        if !self.preface_done {
            if self.deframer.buf.len() == 0 {
                return Ok(());
            }
            return Err(H2ConnectionError::UnexpectedEof);
        }
        match self.processor.block_stream_id() {
            Some(sid) => {
                return Err(H2ConnectionError::ExpectedContinuationFrame {
                    stream_id: sid,
                    frame_type: None,
                });
            },
            None => {},
        }
        if self.deframer.eof_is_clean() {
            return Ok(());
        }
        match self.deframer.pending_frame() {
            Some(h) => Err(H2ConnectionError::IncompleteFrame {
                frame_type: h.frame_type,
                frame_size: h.len,
            }),
            None => Err(H2ConnectionError::UnexpectedEof),
        }
    }

    /// The one GOAWAY this connection will ever emit: last accepted
    /// stream id, the error's code, and its diagnostic text. Once it is
    /// out - or once it has been asked for - nothing further is emitted:
    /// a second call returns nothing.
    pub fn goaway(&mut self, err: H2ConnectionError) -> (r: Option<OutFrame>)
        requires
            old(self).wf(),
        ensures
            final(self).wf(),
            final(self).closed,
            final(self).goaway_sent,
            old(self).goaway_sent ==> r is None,
            !old(self).goaway_sent ==> (r matches Some(f) && f.wf() && f.frame.frame_type
                == FrameType::GoAway && f.frame.flags == 0 && f.frame.stream_id == 0
                && f.payload@.len() >= 8 && spec_be32(f.payload@, 0) == old(self).processor.state.last_stream_id && spec_be32(f.payload@, 4)
                == err.spec_error_code().spec_repr() && (err.spec_debug_bytes().len() <= 0xffff
                ==> f.payload@.skip(8) == err.spec_debug_bytes())),
    {
        self.closed = true;
        if self.goaway_sent {
            return None;
        }
        self.goaway_sent = true;
        let mut payload: Vec<u8> = Vec::new();
        encode_be32(self.processor.state.last_stream_id, &mut payload);
        encode_be32(err.as_known_error_code().repr(), &mut payload);
        let ghost head = payload@;
        let dbg = err.debug_text().as_bytes();
        if dbg.len() <= 0xffff {
            payload.extend_from_slice(dbg);
        }
        proof {
            assert(payload@.subrange(0, 8) =~= head);
            assert(spec_be32(payload@, 0) == spec_be32(head, 0));
            assert(spec_be32(payload@, 4) == spec_be32(head, 4));
            if err.spec_debug_bytes().len() <= 0xffff {
                assert(payload@.skip(8) =~= err.spec_debug_bytes());
            }
        }
        let frame = Frame {
            frame_type: FrameType::GoAway,
            flags: 0,
            len: payload.len() as u32,
            stream_id: 0,
        };
        Some(OutFrame { frame, payload })
    }
}

} // verus!
