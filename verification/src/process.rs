//! The frame processor: the single owner of the connection state. It
//! consumes validated frames, drives the per-stream state machines,
//! reassembles header blocks across CONTINUATION frames, answers PING and
//! SETTINGS, turns application events into outbound frames, and reports
//! stream violations as RST_STREAM actions and connection violations as
//! errors for the caller to turn into a GOAWAY.

use vstd::prelude::*;
use crate::compress::{
    decoder_new, decoder_set_max_table_size, encoder_new, hpack_decode, hpack_encode,
    pairs_to_fields,
};
use crate::frame::{
    encode_be32, flag_set, has_flag, parse_priority, parse_reserved_and_u31, spec_be32, Frame,
    FrameType, FLAG_ACK, FLAG_END_HEADERS, FLAG_END_STREAM, FLAG_PRIORITY,
};
use crate::headers::{validate_request_headers, validate_trailers};
use crate::settings::{parse_settings, spec_parse_settings};
use crate::state::ConnState;
use crate::types::{
    Action, H2ConnectionError, H2Event, H2EventPayload, H2StreamError, HeaderField,
    KnownErrorCode, OutFrame, Response, StreamState,
};

verus! {

/// Whether a header block opens a stream or carries trailers.
#[derive(Clone, Copy, PartialEq, Eq, Structural, Debug)]
pub enum HeadersOrTrailers {
    Headers,
    Trailers,
}

/// Whether a header block is decoded and acted on, or merely skipped
/// (the stream was already refused or reset).
#[derive(Clone, Copy, PartialEq, Eq, Structural, Debug)]
pub enum ReadHeadersMode {
    Process,
    Skip,
}

/// An open header block: fragments pile up here until END_HEADERS.
pub struct Reassembly {
    pub stream_id: u32,
    pub end_stream: bool,
    pub kind: HeadersOrTrailers,
    pub mode: ReadHeadersMode,
    pub fragments: Vec<Vec<u8>>,
}

/// Fragment list as byte sequences, in receipt order.
pub open spec fn frags_view(fs: Seq<Vec<u8>>) -> Seq<Seq<u8>> {
    fs.map_values(|v: Vec<u8>| v@)
}

/// Concatenation of the fragments from index `i` on, in order.
pub open spec fn spec_concat(frags: Seq<Seq<u8>>, i: int) -> Seq<u8>
    decreases frags.len() - i,
{
    if i < 0 || i >= frags.len() {
        Seq::empty()
    } else {
        frags[i] + spec_concat(frags, i + 1)
    }
}

/// One contiguous buffer holding exactly the fragments in receipt order;
/// this is the only thing ever handed to the HPACK decoder.
pub fn assemble_fragments(frags: &Vec<Vec<u8>>) -> (r: Vec<u8>)
    ensures
        r@ == spec_concat(frags_view(frags@), 0),
{
    let ghost fv = frags_view(frags@);
    let mut r: Vec<u8> = Vec::new();
    let n = frags.len();
    let mut i: usize = 0;
    while i < n
        invariant
            0 <= i <= n,
            frags@.len() == n,
            fv == frags_view(frags@),
            spec_concat(fv, 0) == r@ + spec_concat(fv, i as int),
        decreases n - i,
    {
        let ghost r_old = r@;
        r.extend_from_slice(frags[i].as_slice());
        proof {
            let frag = fv[i as int];
            assert(r@ == r_old + frag);
            assert(spec_concat(fv, i as int) == frag + spec_concat(fv, i as int + 1));
            assert(r_old + (frag + spec_concat(fv, i as int + 1)) =~= (r_old + frag)
                + spec_concat(fv, i as int + 1));
        }
        i += 1;
    }
    proof {
        assert(spec_concat(fv, n as int) =~= Seq::<u8>::empty());
        assert(r@ + Seq::<u8>::empty() =~= r@);
    }
    r
}

proof fn lemma_concat_push_from(frags: Seq<Seq<u8>>, x: Seq<u8>, i: int)
    requires
        0 <= i <= frags.len(),
    ensures
        spec_concat(frags.push(x), i) == spec_concat(frags, i) + x,
    decreases frags.len() - i,
{
    if i == frags.len() {
        assert(spec_concat(frags.push(x), i) == frags.push(x)[i] + spec_concat(
            frags.push(x),
            i + 1,
        ));
        assert(spec_concat(frags.push(x), i + 1) =~= Seq::<u8>::empty());
        assert(x + Seq::<u8>::empty() =~= x);
        assert(Seq::<u8>::empty() + x =~= x);
    } else {
        lemma_concat_push_from(frags, x, i + 1);
        assert(frags.push(x)[i] == frags[i]);
        assert(frags[i] + (spec_concat(frags, i + 1) + x) =~= (frags[i] + spec_concat(
            frags,
            i + 1,
        )) + x);
    }
}

/// A fragment received after the others extends the joined header block
/// at its end: blocks are always decoded from the fragments in receipt
/// order, never in any other arrangement.
pub proof fn lemma_concat_push(frags: Seq<Seq<u8>>, x: Seq<u8>)
    ensures
        spec_concat(frags.push(x), 0) == spec_concat(frags, 0) + x,
{
    lemma_concat_push_from(frags, x, 0);
}

/// The processor: connection state, the HPACK codec pair, and any header
/// block currently under reassembly.
pub struct Processor {
    pub state: ConnState,
    pub reassembly: Option<Reassembly>,
    pub hpack_dec: hpack::Decoder<'static>,
    pub hpack_enc: hpack::Encoder<'static>,
    /// Every frame this processor has consumed, in order, with its
    /// payload: the receipt the connection driver's contract is stated
    /// over.
    pub log: Ghost<Seq<(Frame, Seq<u8>)>>,
}

impl Processor {
    /// Connection-state invariants, plus what an open reassembly may
    /// assume when it completes: an accepted stream is still absent from
    /// the table with capacity reserved, a trailer stream is still
    /// present.
    pub open spec fn wf(self) -> bool {
        &&& self.state.wf()
        &&& match self.reassembly {
            Some(ra) => {
                &&& ra.stream_id < 0x8000_0000
                &&& (ra.kind is Headers && ra.mode is Process ==> {
                    &&& !self.state.streams@.contains_key(ra.stream_id)
                    &&& self.state.streams@.len()
                        < self.state.self_settings.max_concurrent_streams
                    &&& ra.stream_id == self.state.last_stream_id
                    &&& ra.stream_id % 2 == 1
                })
                &&& (ra.kind is Trailers && ra.mode is Process
                    ==> self.state.streams@.contains_key(ra.stream_id))
            },
            None => true,
        }
    }

    /// Whether a header block is being reassembled; while it is, only
    /// CONTINUATION frames for that stream are legal and no outbound
    /// event is serviced.
    pub open spec fn header_block_active(self) -> bool {
        self.reassembly is Some
    }

    pub fn in_header_block(&self) -> (r: bool)
        ensures
            r == self.header_block_active(),
    {
        self.reassembly.is_some()
    }

    /// The stream whose header block is open, if one is.
    pub fn block_stream_id(&self) -> (r: Option<u32>)
        ensures
            match self.reassembly {
                Some(ra) => r == Some(ra.stream_id),
                None => r is None,
            },
    {
        match &self.reassembly {
            Some(ra) => Some(ra.stream_id),
            None => None,
        }
    }

    /// A fresh processor over fresh connection state; the HPACK decoder
    /// is capped at the header table size this server advertises.
    pub fn new(max_streams: u32) -> (r: Processor)
        ensures
            r.wf(),
            r.state.streams@ == Map::<u32, StreamState>::empty(),
            r.state.last_stream_id == 0,
            r.state.self_settings.max_concurrent_streams == max_streams,
            !r.header_block_active(),
            r.log@ == Seq::<(Frame, Seq<u8>)>::empty(),
    {
        let state = ConnState::new(max_streams);
        let mut hpack_dec = decoder_new();
        decoder_set_max_table_size(&mut hpack_dec, state.self_settings.header_table_size as usize);
        let hpack_enc = encoder_new();
        Processor {
            state,
            reassembly: None,
            hpack_dec,
            hpack_enc,
            log: Ghost(Seq::empty()),
        }
    }

    /// Drops the stream (if present) and builds the RST_STREAM frame
    /// carrying the error's code.
    fn rst(&mut self, stream_id: u32, e: H2StreamError) -> (r: OutFrame)
        requires
            old(self).state.wf(),
            stream_id < 0x8000_0000,
        ensures
            final(self).state.wf(),
            final(self).state.streams@ == old(self).state.streams@.remove(stream_id),
            final(self).state.last_stream_id == old(self).state.last_stream_id,
            final(self).state.self_settings == old(self).state.self_settings,
            final(self).state.peer_settings == old(self).state.peer_settings,
            final(self).state.goaway_recv == old(self).state.goaway_recv,
            final(self).reassembly == old(self).reassembly,
            r.wf(),
            r.frame == (Frame {
                frame_type: FrameType::RstStream,
                flags: 0u8,
                len: 4u32,
                stream_id,
            }),
            r.payload@.len() == 4,
            spec_be32(r.payload@, 0) == e.spec_error_code().spec_repr(),
    {
        self.state.remove_stream(stream_id);
        let mut payload: Vec<u8> = Vec::new();
        encode_be32(e.as_known_error_code().repr(), &mut payload);
        OutFrame {
            frame: Frame { frame_type: FrameType::RstStream, flags: 0, len: 4, stream_id },
            payload,
        }
    }

    /// DATA: the stream must exist; its payload goes to the stream's
    /// reader, END_STREAM half-closes or closes the stream. DATA on a
    /// half-closed-remote stream resets that stream only; DATA on an
    /// unknown stream is a connection error.
    fn on_data(&mut self, frame: Frame, payload: Vec<u8>) -> (r: Result<
        Vec<Action>,
        H2ConnectionError,
    >)
        requires
            old(self).wf(),
            old(self).reassembly is None,
            frame.frame_type == FrameType::Data,
            frame.wf(),
        ensures
            final(self).wf(),
            final(self).reassembly is None,
            final(self).state.last_stream_id == old(self).state.last_stream_id,
            final(self).state.self_settings == old(self).state.self_settings,
            final(self).state.peer_settings == old(self).state.peer_settings,
            final(self).state.goaway_recv == old(self).state.goaway_recv,
            !old(self).state.streams@.contains_key(frame.stream_id) ==> r == Err::<
                Vec<Action>,
                _,
            >(H2ConnectionError::StreamClosed { stream_id: frame.stream_id }),
            (old(self).state.streams@.contains_key(frame.stream_id) && (old(self).state.streams@[frame.stream_id] is Open || old(self).state.streams@[frame.stream_id] is HalfClosedLocal)) ==> {
                &&& r matches Ok(a) && a@ =~= seq![
                    Action::DeliverData {
                        stream_id: frame.stream_id,
                        bytes: payload,
                        end_stream: has_flag(frame.flags, FLAG_END_STREAM),
                    },
                ]
                &&& (!has_flag(frame.flags, FLAG_END_STREAM) ==> final(self).state.streams@ == old(self).state.streams@)
                &&& (has_flag(frame.flags, FLAG_END_STREAM) && old(self).state.streams@[frame.stream_id] is Open ==> final(self).state.streams@ == old(self).state.streams@.insert(frame.stream_id, StreamState::HalfClosedRemote))
                &&& (has_flag(frame.flags, FLAG_END_STREAM) && old(self).state.streams@[frame.stream_id] is HalfClosedLocal ==> final(self).state.streams@ == old(self).state.streams@.remove(frame.stream_id))
            },
            (old(self).state.streams@.contains_key(frame.stream_id) && old(self).state.streams@[frame.stream_id] is HalfClosedRemote) ==> {
                &&& r matches Ok(a) && a@.len() == 1 && (a@[0] matches Action::WriteFrame(f)
                    && f.frame.frame_type == FrameType::RstStream && f.frame.stream_id
                    == frame.stream_id && spec_be32(f.payload@, 0)
                    == KnownErrorCode::StreamClosed.spec_repr())
                &&& final(self).state.streams@ == old(self).state.streams@.remove(frame.stream_id)
            },
    {
        let sid = frame.stream_id;
        let end_stream = flag_set(frame.flags, FLAG_END_STREAM);
        match self.state.stream_state(sid) {
            None => Err(H2ConnectionError::StreamClosed { stream_id: sid }),
            Some(StreamState::Open) => {
                let mut actions: Vec<Action> = Vec::new();
                actions.push(Action::DeliverData { stream_id: sid, bytes: payload, end_stream });
                if end_stream {
                    self.state.insert_stream(sid, StreamState::HalfClosedRemote);
                }
                Ok(actions)
            },
            Some(StreamState::HalfClosedLocal) => {
                let mut actions: Vec<Action> = Vec::new();
                actions.push(Action::DeliverData { stream_id: sid, bytes: payload, end_stream });
                if end_stream {
                    self.state.remove_stream(sid);
                }
                Ok(actions)
            },
            Some(StreamState::HalfClosedRemote) => {
                let f = self.rst(sid, H2StreamError::StreamClosed);
                let mut actions: Vec<Action> = Vec::new();
                actions.push(Action::WriteFrame(f));
                Ok(actions)
            },
            Some(StreamState::Transition) => {
                proof {
                    assert(false);
                }
                Ok(Vec::new())
            },
        }
    }

    /// RST_STREAM: a 4-byte payload is required (else the stream itself
    /// is reset); resetting an unknown stream is a connection error;
    /// otherwise the stream is dropped and its reader told.
    fn on_rst_stream(&mut self, frame: Frame) -> (r: Result<Vec<Action>, H2ConnectionError>)
        requires
            old(self).wf(),
            old(self).reassembly is None,
            frame.frame_type == FrameType::RstStream,
            frame.wf(),
        ensures
            final(self).wf(),
            final(self).reassembly is None,
            final(self).state.last_stream_id == old(self).state.last_stream_id,
            final(self).state.self_settings == old(self).state.self_settings,
            final(self).state.peer_settings == old(self).state.peer_settings,
            final(self).state.goaway_recv == old(self).state.goaway_recv,
            frame.len != 4 ==> (r matches Ok(a) && a@.len() == 1 && (a@[0]
                matches Action::WriteFrame(f) && f.frame.frame_type == FrameType::RstStream
                && f.frame.stream_id == frame.stream_id && spec_be32(f.payload@, 0)
                == KnownErrorCode::FrameSizeError.spec_repr()) && final(self).state.streams@
                == old(self).state.streams@.remove(frame.stream_id)),
            (frame.len == 4 && !old(self).state.streams@.contains_key(frame.stream_id)) ==> r
                == Err::<Vec<Action>, _>(H2ConnectionError::RstStreamForUnknownStream {
                stream_id: frame.stream_id,
            }),
            (frame.len == 4 && old(self).state.streams@.contains_key(frame.stream_id)) ==> {
                &&& final(self).state.streams@ == old(self).state.streams@.remove(frame.stream_id)
                &&& (old(self).state.streams@[frame.stream_id] is Open || old(self).state.streams@[frame.stream_id] is HalfClosedLocal) ==> (r matches Ok(a) && a@
                    =~= seq![
                    Action::ResetIncoming {
                        stream_id: frame.stream_id,
                        error: H2StreamError::ReceivedRstStream,
                    },
                ])
                &&& (old(self).state.streams@[frame.stream_id] is HalfClosedRemote ==> (
                r matches Ok(a) && a@.len() == 0))
            },
    {
        let sid = frame.stream_id;
        if frame.len != 4 {
            let f = self.rst(
                sid,
                H2StreamError::InvalidRstStreamFrameSize { frame_size: frame.len },
            );
            let mut actions: Vec<Action> = Vec::new();
            actions.push(Action::WriteFrame(f));
            return Ok(actions);
        }
        match self.state.remove_stream(sid) {
            None => Err(H2ConnectionError::RstStreamForUnknownStream { stream_id: sid }),
            Some(StreamState::Open) | Some(StreamState::HalfClosedLocal) => {
                let mut actions: Vec<Action> = Vec::new();
                actions.push(
                    Action::ResetIncoming {
                        stream_id: sid,
                        error: H2StreamError::ReceivedRstStream,
                    },
                );
                Ok(actions)
            },
            Some(StreamState::HalfClosedRemote) => Ok(Vec::new()),
            Some(StreamState::Transition) => {
                proof {
                    assert(false);
                }
                Ok(Vec::new())
            },
        }
    }

    /// SETTINGS: connection-scoped only. An ACK must be empty. A non-ACK
    /// payload replaces the peer settings and is acknowledged at once.
    fn on_settings(&mut self, frame: Frame, payload: Vec<u8>) -> (r: Result<
        Vec<Action>,
        H2ConnectionError,
    >)
        requires
            old(self).wf(),
            old(self).reassembly is None,
            frame.frame_type == FrameType::Settings,
            frame.wf(),
        ensures
            final(self).wf(),
            final(self).reassembly is None,
            final(self).state.last_stream_id == old(self).state.last_stream_id,
            final(self).state.self_settings == old(self).state.self_settings,
            final(self).state.streams@ == old(self).state.streams@,
            final(self).state.goaway_recv == old(self).state.goaway_recv,
            frame.stream_id != 0 ==> r == Err::<Vec<Action>, _>(
                H2ConnectionError::SettingsWithNonZeroStreamId { stream_id: frame.stream_id },
            ),
            (frame.stream_id == 0 && has_flag(frame.flags, FLAG_ACK)) ==> if payload@.len() == 0 {
                r matches Ok(a) && a@.len() == 0 && final(self).state.peer_settings == old(self).state.peer_settings
            } else {
                r == Err::<Vec<Action>, _>(H2ConnectionError::SettingsAckWithPayload {
                    len: payload@.len() as u32,
                })
            },
            (frame.stream_id == 0 && !has_flag(frame.flags, FLAG_ACK)) ==> match
                spec_parse_settings(payload@, old(self).state.peer_settings) {
                Some(s) => {
                    &&& final(self).state.peer_settings == s
                    &&& r matches Ok(a) && a@.len() == 1 && (a@[0] matches Action::WriteFrame(f)
                        && f.frame == (Frame {
                        frame_type: FrameType::Settings,
                        flags: FLAG_ACK,
                        len: 0u32,
                        stream_id: 0u32,
                    }) && f.payload@.len() == 0)
                },
                None => r == Err::<Vec<Action>, _>(H2ConnectionError::SettingsInvalid),
            },
    {
        if frame.stream_id != 0 {
            return Err(H2ConnectionError::SettingsWithNonZeroStreamId {
                stream_id: frame.stream_id,
            });
        }
        if flag_set(frame.flags, FLAG_ACK) {
            if payload.len() != 0 {
                return Err(H2ConnectionError::SettingsAckWithPayload {
                    len: payload.len() as u32,
                });
            }
            return Ok(Vec::new());
        }
        match parse_settings(payload.as_slice(), &self.state.peer_settings) {
            None => Err(H2ConnectionError::SettingsInvalid),
            Some(s) => {
                // hpack's encoder keeps no resizable dynamic-table cap, so
                // the peer's header_table_size is not forwarded to it; its
                // encoding never emits table-size updates.
                self.state.peer_settings = s;
                let ack = OutFrame {
                    frame: Frame {
                        frame_type: FrameType::Settings,
                        flags: FLAG_ACK,
                        len: 0,
                        stream_id: 0,
                    },
                    payload: Vec::new(),
                };
                let mut actions: Vec<Action> = Vec::new();
                actions.push(Action::WriteFrame(ack));
                Ok(actions)
            },
        }
    }

    /// PING: connection-scoped, 8-byte payload. An ACK is dropped; a
    /// request is echoed back byte for byte with the ACK flag.
    fn on_ping(&self, frame: Frame, payload: Vec<u8>) -> (r: Result<
        Vec<Action>,
        H2ConnectionError,
    >)
        requires
            frame.frame_type == FrameType::Ping,
            frame.wf(),
            payload@.len() == frame.len,
        ensures
            frame.stream_id != 0 ==> r == Err::<Vec<Action>, _>(
                H2ConnectionError::PingFrameWithNonZeroStreamId { stream_id: frame.stream_id },
            ),
            (frame.stream_id == 0 && frame.len != 8) ==> r == Err::<Vec<Action>, _>(
                H2ConnectionError::PingFrameInvalidLength { len: frame.len },
            ),
            (frame.stream_id == 0 && frame.len == 8 && has_flag(frame.flags, FLAG_ACK)) ==> (
            r matches Ok(a) && a@.len() == 0),
            (frame.stream_id == 0 && frame.len == 8 && !has_flag(frame.flags, FLAG_ACK)) ==> (
            r matches Ok(a) && a@ =~= seq![
                Action::WriteFrame(
                    OutFrame {
                        frame: Frame {
                            frame_type: FrameType::Ping,
                            flags: FLAG_ACK,
                            len: 8u32,
                            stream_id: 0u32,
                        },
                        payload,
                    },
                ),
            ]),
    {
        if frame.stream_id != 0 {
            return Err(H2ConnectionError::PingFrameWithNonZeroStreamId {
                stream_id: frame.stream_id,
            });
        }
        if frame.len != 8 {
            return Err(H2ConnectionError::PingFrameInvalidLength { len: frame.len });
        }
        if flag_set(frame.flags, FLAG_ACK) {
            return Ok(Vec::new());
        }
        let pong = OutFrame {
            frame: Frame { frame_type: FrameType::Ping, flags: FLAG_ACK, len: 8, stream_id: 0 },
            payload,
        };
        let mut actions: Vec<Action> = Vec::new();
        actions.push(Action::WriteFrame(pong));
        Ok(actions)
    }

    /// GOAWAY: connection-scoped; only recorded, the connection drains no
    /// further on its own.
    fn on_goaway(&mut self, frame: Frame) -> (r: Result<Vec<Action>, H2ConnectionError>)
        requires
            old(self).wf(),
            old(self).reassembly is None,
            frame.frame_type == FrameType::GoAway,
        ensures
            final(self).wf(),
            final(self).reassembly is None,
            final(self).state.last_stream_id == old(self).state.last_stream_id,
            final(self).state.self_settings == old(self).state.self_settings,
            final(self).state.streams@ == old(self).state.streams@,
            final(self).state.peer_settings == old(self).state.peer_settings,
            frame.stream_id != 0 ==> r == Err::<Vec<Action>, _>(
                H2ConnectionError::GoAwayWithNonZeroStreamId { stream_id: frame.stream_id },
            ) && final(self).state.goaway_recv == old(self).state.goaway_recv,
            frame.stream_id == 0 ==> (r matches Ok(a) && a@.len() == 0 && final(self).state.goaway_recv),
    {
        if frame.stream_id != 0 {
            return Err(H2ConnectionError::GoAwayWithNonZeroStreamId {
                stream_id: frame.stream_id,
            });
        }
        self.state.goaway_recv = true;
        Ok(Vec::new())
    }

    /// WINDOW_UPDATE: 4-byte payload, non-zero increment. The
    /// connection-level window is left alone; a stream-level update
    /// requires the stream to exist. No window arithmetic is kept.
    fn on_window_update(&self, frame: Frame, payload: Vec<u8>) -> (r: Result<
        Vec<Action>,
        H2ConnectionError,
    >)
        requires
            self.wf(),
            self.reassembly is None,
            frame.frame_type == FrameType::WindowUpdate,
            frame.wf(),
            payload@.len() == frame.len,
        ensures
            payload@.len() != 4 ==> r == Err::<Vec<Action>, _>(
                H2ConnectionError::WindowUpdateInvalidLength { len: payload@.len() as u32 },
            ),
            (payload@.len() == 4 && crate::frame::spec_u31(payload@, 0) == 0) ==> r == Err::<
                Vec<Action>,
                _,
            >(H2ConnectionError::WindowUpdateZeroIncrement),
            (payload@.len() == 4 && crate::frame::spec_u31(payload@, 0) != 0 && frame.stream_id
                != 0 && !self.state.streams@.contains_key(frame.stream_id)) ==> r == Err::<
                Vec<Action>,
                _,
            >(H2ConnectionError::WindowUpdateForUnknownStream { stream_id: frame.stream_id }),
            (payload@.len() == 4 && crate::frame::spec_u31(payload@, 0) != 0 && (frame.stream_id
                == 0 || self.state.streams@.contains_key(frame.stream_id))) ==> (
            r matches Ok(a) && a@.len() == 0),
    {
        if payload.len() != 4 {
            return Err(H2ConnectionError::WindowUpdateInvalidLength {
                len: payload.len() as u32,
            });
        }
        let (_reserved, increment) = match parse_reserved_and_u31(payload.as_slice()) {
            Some(t) => t,
            None => {
                proof {
                    assert(false);
                }
                (false, 0u32)
            },
        };
        if increment == 0 {
            return Err(H2ConnectionError::WindowUpdateZeroIncrement);
        }
        if frame.stream_id == 0 {
            // the connection-wide window is deliberately not tracked
            return Ok(Vec::new());
        }
        if !self.state.contains_stream(frame.stream_id) {
            return Err(H2ConnectionError::WindowUpdateForUnknownStream {
                stream_id: frame.stream_id,
            });
        }
        Ok(Vec::new())
    }

    /// PRIORITY: a 5-byte payload (else the stream is reset); a stream
    /// depending on itself is a connection error; otherwise ignored.
    fn on_priority(&mut self, frame: Frame, payload: Vec<u8>) -> (r: Result<
        Vec<Action>,
        H2ConnectionError,
    >)
        requires
            old(self).wf(),
            old(self).reassembly is None,
            frame.frame_type == FrameType::Priority,
            frame.wf(),
            payload@.len() == frame.len,
        ensures
            final(self).wf(),
            final(self).reassembly is None,
            final(self).state.last_stream_id == old(self).state.last_stream_id,
            final(self).state.self_settings == old(self).state.self_settings,
            final(self).state.peer_settings == old(self).state.peer_settings,
            final(self).state.goaway_recv == old(self).state.goaway_recv,
            (payload@.len() == 5 && crate::frame::spec_u31(payload@, 0) == frame.stream_id) ==> r
                == Err::<Vec<Action>, _>(H2ConnectionError::HeadersInvalidPriority {
                stream_id: frame.stream_id,
            }),
            (payload@.len() == 5 && crate::frame::spec_u31(payload@, 0) != frame.stream_id) ==> (
            r matches Ok(a) && a@.len() == 0 && final(self).state.streams@ == old(self).state.streams@),
            payload@.len() != 5 ==> (r matches Ok(a) && a@.len() == 1 && (a@[0]
                matches Action::WriteFrame(f) && f.frame.frame_type == FrameType::RstStream
                && f.frame.stream_id == frame.stream_id && spec_be32(f.payload@, 0)
                == KnownErrorCode::FrameSizeError.spec_repr()) && final(self).state.streams@
                == old(self).state.streams@.remove(frame.stream_id)),
    {
        match parse_priority(payload.as_slice()) {
            None => {
                let f = self.rst(
                    frame.stream_id,
                    H2StreamError::InvalidPriorityFrameSize { frame_size: frame.len },
                );
                let mut actions: Vec<Action> = Vec::new();
                actions.push(Action::WriteFrame(f));
                Ok(actions)
            },
            Some(ps) => {
                if ps.stream_dependency == frame.stream_id {
                    return Err(H2ConnectionError::HeadersInvalidPriority {
                        stream_id: frame.stream_id,
                    });
                }
                Ok(Vec::new())
            },
        }
    }
}


/// At no point does the stream table outgrow the advertised
/// `max_concurrent_streams`: the bound is part of connection
/// well-formedness, which every frame and every event preserves.
pub proof fn lemma_streams_within_limit(p: Processor)
    requires
        p.wf(),
    ensures
        p.state.streams@.len() <= p.state.self_settings.max_concurrent_streams,
{
}

/// What the four-way HEADERS classification owes the peer, stated over
/// the state before the frame: a brand-new stream id must be odd and
/// strictly increasing, a full table refuses the stream with RST_STREAM,
/// a half-closed-remote stream closes the connection, and trailers
/// without END_STREAM reset the stream.
pub open spec fn spec_headers_outcome(
    before: Processor,
    frame: Frame,
    r: Result<Vec<Action>, H2ConnectionError>,
    st_after: ConnState,
) -> bool {
    let sid = frame.stream_id;
    let st = before.state;
    &&& ((!st.streams@.contains_key(sid) && sid % 2 == 0) ==> (r == Err::<Vec<Action>, _>(
        H2ConnectionError::ClientSidShouldBeOdd,
    ) && st_after.streams@ == st.streams@ && st_after.last_stream_id == st.last_stream_id))
    &&& ((!st.streams@.contains_key(sid) && sid % 2 == 1 && sid < st.last_stream_id) ==> (r
        == Err::<Vec<Action>, _>(H2ConnectionError::ClientSidShouldBeNumericallyIncreasing {
        stream_id: sid,
        last_stream_id: st.last_stream_id,
    }) && st_after.streams@ == st.streams@ && st_after.last_stream_id == st.last_stream_id))
    &&& ((!st.streams@.contains_key(sid) && sid % 2 == 1 && sid == st.last_stream_id) ==> (r
        == Err::<Vec<Action>, _>(H2ConnectionError::StreamClosed { stream_id: sid })
        && st_after.streams@ == st.streams@ && st_after.last_stream_id == st.last_stream_id))
    &&& ((!st.streams@.contains_key(sid) && sid % 2 == 1 && sid > st.last_stream_id
        && st.streams@.len() >= st.self_settings.max_concurrent_streams) ==> (r matches Ok(a)
        && a@.len() == 1 && (a@[0] matches Action::WriteFrame(f) && f.frame.frame_type
        == FrameType::RstStream && f.frame.stream_id == sid && spec_be32(f.payload@, 0)
        == H2StreamError::RefusedStream.spec_error_code().spec_repr()) && st_after.last_stream_id
        == st.last_stream_id && st_after.streams@ =~= st.streams@))
    &&& ((st.streams@.contains_key(sid) && st.streams@[sid] is HalfClosedRemote) ==> (r == Err::<
        Vec<Action>,
        _,
    >(H2ConnectionError::StreamClosed { stream_id: sid }) && st_after.streams@ == st.streams@
        && st_after.last_stream_id == st.last_stream_id))
    &&& ((st.streams@.contains_key(sid) && (st.streams@[sid] is Open
        || st.streams@[sid] is HalfClosedLocal) && !has_flag(frame.flags, FLAG_END_STREAM)) ==> (
    r matches Ok(a) && a@.len() == 1 && (a@[0] matches Action::WriteFrame(f)
        && f.frame.frame_type == FrameType::RstStream && f.frame.stream_id == sid && spec_be32(
        f.payload@,
        0,
    ) == H2StreamError::TrailersNotEndStream.spec_error_code().spec_repr())
        && st_after.streams@ == st.streams@.remove(sid) && st_after.last_stream_id
        == st.last_stream_id))
}

/// What completing an accepted request block owes: either exactly one
/// started request whose content the header validator accepts, with the
/// stream entered into the table, or exactly one RST_STREAM with
/// PROTOCOL_ERROR for a malformed block, or the compression error when
/// the block cannot be decoded. `streams_before` is the table at the
/// moment of acceptance.
pub open spec fn spec_accept_outcome(
    streams_before: Map<u32, StreamState>,
    stream_id: u32,
    end_stream: bool,
    r: Result<Vec<Action>, H2ConnectionError>,
    st_after: ConnState,
) -> bool {
    match r {
        Ok(a) => a@.len() == 1 && ((a@[0] matches Action::StartRequest {
            stream_id: rsid,
            request,
            end_stream: res,
        } && rsid == stream_id && res == end_stream && (exists|pairs: Seq<(Seq<u8>, Seq<u8>)>|
            #[trigger] crate::headers::spec_accept_headers(pairs) == Some(request@))
            && st_after.streams@ == streams_before.insert(
            stream_id,
            if end_stream {
                StreamState::HalfClosedRemote
            } else {
                StreamState::Open
            },
        )) || (a@[0] matches Action::WriteFrame(f) && f.frame.frame_type == FrameType::RstStream
            && f.frame.stream_id == stream_id && spec_be32(f.payload@, 0)
            == KnownErrorCode::ProtocolError.spec_repr() && st_after.streams@
            == streams_before.remove(stream_id))),
        Err(e) => e == H2ConnectionError::CompressionError && st_after.streams@
            == streams_before,
    }
}

/// What completing a trailer block owes: either the trailers delivered
/// to the stream's reader, half-closing an open stream and removing one
/// the server already finished, or one RST_STREAM with PROTOCOL_ERROR
/// for a block that carries a pseudo-header, or the compression error.
/// `streams_before` is the table when the trailers were classified.
pub open spec fn spec_trailers_outcome(
    streams_before: Map<u32, StreamState>,
    stream_id: u32,
    r: Result<Vec<Action>, H2ConnectionError>,
    st_after: ConnState,
) -> bool {
    match r {
        Ok(a) => a@.len() == 1 && ((a@[0] matches Action::DeliverTrailers {
            stream_id: tsid,
            trailers,
        } && tsid == stream_id && (forall|j: int|
            0 <= j < trailers@.len() ==> !crate::headers::spec_is_pseudo(
                #[trigger] trailers@[j].name@,
            )) && (streams_before.contains_key(stream_id) && streams_before[stream_id] is Open
            ==> st_after.streams@ == streams_before.insert(
            stream_id,
            StreamState::HalfClosedRemote,
        )) && (!(streams_before.contains_key(stream_id) && streams_before[stream_id] is Open)
            ==> st_after.streams@ == streams_before.remove(stream_id))) || (
        a@[0] matches Action::WriteFrame(f) && f.frame.frame_type == FrameType::RstStream
            && f.frame.stream_id == stream_id && spec_be32(f.payload@, 0)
            == KnownErrorCode::ProtocolError.spec_repr() && st_after.streams@
            == streams_before.remove(stream_id))),
        Err(e) => e == H2ConnectionError::CompressionError && st_after.streams@
            == streams_before,
    }
}

/// A HEADERS frame this server must accept: a brand-new, odd, strictly
/// increasing stream id, with room in the table.
pub open spec fn spec_acceptable(before: Processor, frame: Frame) -> bool {
    &&& frame.stream_id % 2 == 1
    &&& frame.stream_id > before.state.last_stream_id
    &&& !before.state.streams@.contains_key(frame.stream_id)
    &&& before.state.streams@.len() < before.state.self_settings.max_concurrent_streams
}

/// A HEADERS frame whose priority prefix (if any) is well formed: the
/// classification outcomes apply to it. A frame failing this is refused
/// earlier, by the priority rules.
pub open spec fn spec_headers_premise(frame: Frame, payload: Seq<u8>) -> bool {
    has_flag(frame.flags, FLAG_PRIORITY) ==> (payload.len() >= 5 && crate::frame::spec_u31(
        payload,
        0,
    ) != frame.stream_id)
}

impl Processor {
    /// Completes a header block: the fragments are joined in receipt
    /// order and decoded exactly once; a request block accepts the stream
    /// and spawns the handler, a trailer block closes the remote side,
    /// and a malformed block resets the stream.
    fn finish_block(
        &mut self,
        kind: HeadersOrTrailers,
        mode: ReadHeadersMode,
        end_stream: bool,
        stream_id: u32,
        fragments: Vec<Vec<u8>>,
    ) -> (r: Result<Vec<Action>, H2ConnectionError>)
        requires
            old(self).wf(),
            old(self).reassembly is None,
            stream_id < 0x8000_0000,
            (kind is Headers && mode is Process) ==> {
                &&& !old(self).state.streams@.contains_key(stream_id)
                &&& old(self).state.streams@.len() < old(self).state.self_settings.max_concurrent_streams
                &&& stream_id == old(self).state.last_stream_id
                &&& stream_id % 2 == 1
            },
            (kind is Trailers && mode is Process) ==> old(self).state.streams@.contains_key(
                stream_id,
            ),
        ensures
            final(self).wf(),
            final(self).reassembly is None,
            final(self).state.last_stream_id == old(self).state.last_stream_id,
            final(self).state.self_settings == old(self).state.self_settings,
            final(self).state.peer_settings == old(self).state.peer_settings,
            final(self).state.goaway_recv == old(self).state.goaway_recv,
            mode is Skip ==> (r matches Ok(a) && a@.len() == 0 && *final(self) == *old(self)),
            (kind is Headers && mode is Process) ==> spec_accept_outcome(
                old(self).state.streams@,
                stream_id,
                end_stream,
                r,
                final(self).state,
            ),
            (kind is Trailers && mode is Process) ==> spec_trailers_outcome(
                old(self).state.streams@,
                stream_id,
                r,
                final(self).state,
            ),
    {
        match mode {
            ReadHeadersMode::Skip => {
                // the stream was refused or reset; its block is dropped
                // without reaching the decoder
                return Ok(Vec::new());
            },
            ReadHeadersMode::Process => {},
        }
        let block = assemble_fragments(&fragments);
        if !crate::compress::hpack_block_safe(block.as_slice()) {
            // the codec does not survive a size-update field with a bad
            // integer; refuse such a block here instead
            return Err(H2ConnectionError::CompressionError);
        }
        let pairs = match hpack_decode(&mut self.hpack_dec, block.as_slice()) {
            Ok(p) => p,
            Err(_) => {
                return Err(H2ConnectionError::CompressionError);
            },
        };
        let fields = pairs_to_fields(pairs);
        match kind {
            HeadersOrTrailers::Headers => {
                match validate_request_headers(&fields) {
                    Ok(req) => {
                        let st = if end_stream {
                            StreamState::HalfClosedRemote
                        } else {
                            StreamState::Open
                        };
                        self.state.insert_stream(stream_id, st);
                        proof {
                            broadcast use vstd::set_lib::group_set_lib_default;

                            assert(self.state.streams@.dom() =~= old(self).state.streams@.dom().insert(stream_id));
                            assert forall|k: u32| #[trigger]
                                self.state.streams@.contains_key(k) implies k % 2 == 1 && 0 < k
                                <= self.state.last_stream_id && self.state.streams@[k]
                                != StreamState::Transition by {
                                if k != stream_id {
                                    assert(old(self).state.streams@.contains_key(k));
                                }
                            }
                        }
                        let mut actions: Vec<Action> = Vec::new();
                        proof {
                            let pairs = crate::headers::fields_view(fields@);
                            assert(crate::headers::spec_accept_headers(pairs) == Some(req@));
                        }
                        actions.push(Action::StartRequest { stream_id, request: req, end_stream });
                        Ok(actions)
                    },
                    Err(e) => {
                        let f = self.rst(stream_id, e);
                        let mut actions: Vec<Action> = Vec::new();
                        actions.push(Action::WriteFrame(f));
                        Ok(actions)
                    },
                }
            },
            HeadersOrTrailers::Trailers => {
                match validate_trailers(fields) {
                    Ok(trailers) => {
                        let mut actions: Vec<Action> = Vec::new();
                        actions.push(Action::DeliverTrailers { stream_id, trailers });
                        // trailers end the remote side: half-close an open
                        // stream, close one the server already finished
                        match self.state.stream_state(stream_id) {
                            Some(StreamState::Open) => {
                                self.state.insert_stream(
                                    stream_id,
                                    StreamState::HalfClosedRemote,
                                );
                                proof {
                                    broadcast use vstd::set_lib::group_set_lib_default;

                                    assert(self.state.streams@.dom() =~= old(self).state.streams@.dom().insert(stream_id));
                                    assert forall|k: u32| #[trigger]
                                        self.state.streams@.contains_key(k) implies k % 2 == 1 && 0
                                        < k <= self.state.last_stream_id
                                        && self.state.streams@[k] != StreamState::Transition by {
                                        if k != stream_id {
                                            assert(old(self).state.streams@.contains_key(k));
                                        }
                                    }
                                }
                            },
                            _ => {
                                self.state.remove_stream(stream_id);
                            },
                        }
                        Ok(actions)
                    },
                    Err(e) => {
                        let f = self.rst(stream_id, e);
                        let mut actions: Vec<Action> = Vec::new();
                        actions.push(Action::WriteFrame(f));
                        Ok(actions)
                    },
                }
            },
        }
    }

    /// HEADERS: an optional priority prefix, then the four-way
    /// classification (new stream, trailers, closed, half-closed-remote),
    /// then either the whole block at once or the start of reassembly.
    fn on_headers(&mut self, frame: Frame, payload: Vec<u8>) -> (r: Result<
        Vec<Action>,
        H2ConnectionError,
    >)
        requires
            old(self).wf(),
            old(self).reassembly is None,
            frame.frame_type == FrameType::Headers,
            frame.wf(),
        ensures
            final(self).wf(),
            final(self).state.self_settings == old(self).state.self_settings,
            final(self).state.peer_settings == old(self).state.peer_settings,
            final(self).state.goaway_recv == old(self).state.goaway_recv,
            old(self).state.last_stream_id <= final(self).state.last_stream_id,
            final(self).state.last_stream_id != old(self).state.last_stream_id ==> {
                &&& final(self).state.last_stream_id == frame.stream_id
                &&& frame.stream_id > old(self).state.last_stream_id
                &&& frame.stream_id % 2 == 1
            },
            spec_headers_premise(frame, payload@) ==> spec_headers_outcome(
                *old(self),
                frame,
                r,
                final(self).state,
            ),
            (spec_acceptable(*old(self), frame) && spec_headers_premise(frame, payload@)
                && has_flag(frame.flags, FLAG_END_HEADERS)) ==> (final(self).state.last_stream_id
                == frame.stream_id && spec_accept_outcome(
                old(self).state.streams@,
                frame.stream_id,
                has_flag(frame.flags, FLAG_END_STREAM),
                r,
                final(self).state,
            )),
            (spec_acceptable(*old(self), frame) && spec_headers_premise(frame, payload@)
                && !has_flag(frame.flags, FLAG_END_HEADERS)) ==> (r matches Ok(a) && a@.len() == 0
                && final(self).state.last_stream_id == frame.stream_id && final(self).state.streams@ == old(self).state.streams@ && (final(self).reassembly matches Some(ra) && ra.stream_id == frame.stream_id
                && ra.kind is Headers && ra.mode is Process && ra.end_stream == has_flag(
                frame.flags,
                FLAG_END_STREAM,
            ))),
            (!has_flag(frame.flags, FLAG_PRIORITY) && !has_flag(frame.flags, FLAG_END_HEADERS))
                ==> (r matches Ok(a) ==> (final(self).reassembly matches Some(ra2)
                && ra2.stream_id == frame.stream_id && ra2.end_stream == has_flag(
                frame.flags,
                FLAG_END_STREAM,
            ) && frags_view(ra2.fragments@) =~= seq![payload@])),
            (old(self).state.streams@.contains_key(frame.stream_id) && (old(self).state.streams@[frame.stream_id] is Open || old(self).state.streams@[frame.stream_id] is HalfClosedLocal) && has_flag(
                frame.flags,
                FLAG_END_STREAM,
            ) && has_flag(frame.flags, FLAG_END_HEADERS) && spec_headers_premise(frame, payload@))
                ==> spec_trailers_outcome(
                old(self).state.streams@,
                frame.stream_id,
                r,
                final(self).state,
            ),
            (has_flag(frame.flags, FLAG_PRIORITY) && payload@.len() < 5) ==> r == Err::<
                Vec<Action>,
                _,
            >(H2ConnectionError::PriorityPayloadTooShort { stream_id: frame.stream_id }),
            (has_flag(frame.flags, FLAG_PRIORITY) && payload@.len() >= 5
                && crate::frame::spec_u31(payload@, 0) == frame.stream_id) ==> r == Err::<
                Vec<Action>,
                _,
            >(H2ConnectionError::HeadersInvalidPriority { stream_id: frame.stream_id }),
    {
        let mut payload = payload;
        let sid = frame.stream_id;
        let mut actions: Vec<Action> = Vec::new();

        if flag_set(frame.flags, FLAG_PRIORITY) {
            if payload.len() < 5 {
                return Err(H2ConnectionError::PriorityPayloadTooShort { stream_id: sid });
            }
            let rest = payload.split_off(5);
            let ps = match parse_priority(payload.as_slice()) {
                Some(ps) => ps,
                None => {
                    proof {
                        assert(false);
                    }
                    return Err(H2ConnectionError::PriorityPayloadTooShort { stream_id: sid });
                },
            };
            if ps.stream_dependency == sid {
                return Err(H2ConnectionError::HeadersInvalidPriority { stream_id: sid });
            }
            payload = rest;
        }

        let end_stream = flag_set(frame.flags, FLAG_END_STREAM);
        let kind: HeadersOrTrailers;
        let mode: ReadHeadersMode;
        match self.state.stream_state(sid) {
            None => {
                kind = HeadersOrTrailers::Headers;
                if sid % 2 == 0 {
                    return Err(H2ConnectionError::ClientSidShouldBeOdd);
                }
                if sid < self.state.last_stream_id {
                    return Err(H2ConnectionError::ClientSidShouldBeNumericallyIncreasing {
                        stream_id: sid,
                        last_stream_id: self.state.last_stream_id,
                    });
                }
                if sid == self.state.last_stream_id {
                    // headers were seen for this stream before; it has been
                    // closed in between
                    return Err(H2ConnectionError::StreamClosed { stream_id: sid });
                }
                let count = self.state.stream_count();
                if count >= self.state.self_settings.max_concurrent_streams as usize {
                    let f = self.rst(sid, H2StreamError::RefusedStream);
                    actions.push(Action::WriteFrame(f));
                    mode = ReadHeadersMode::Skip;
                } else {
                    self.state.last_stream_id = sid;
                    mode = ReadHeadersMode::Process;
                }
            },
            Some(StreamState::Open) | Some(StreamState::HalfClosedLocal) => {
                kind = HeadersOrTrailers::Trailers;
                if end_stream {
                    mode = ReadHeadersMode::Process;
                } else {
                    let f = self.rst(sid, H2StreamError::TrailersNotEndStream);
                    actions.push(Action::WriteFrame(f));
                    mode = ReadHeadersMode::Skip;
                }
            },
            Some(StreamState::HalfClosedRemote) => {
                return Err(H2ConnectionError::StreamClosed { stream_id: sid });
            },
            Some(StreamState::Transition) => {
                proof {
                    assert(false);
                }
                return Err(H2ConnectionError::StreamClosed { stream_id: sid });
            },
        }

        let mut fragments: Vec<Vec<u8>> = Vec::new();
        fragments.push(payload);
        if flag_set(frame.flags, FLAG_END_HEADERS) {
            let mut more = self.finish_block(kind, mode, end_stream, sid, fragments)?;
            actions.append(&mut more);
            Ok(actions)
        } else {
            self.reassembly = Some(
                Reassembly { stream_id: sid, end_stream, kind, mode, fragments },
            );
            Ok(actions)
        }
    }

    /// A frame received while a header block is open: it must be a
    /// CONTINUATION for the same stream; its payload joins the fragments
    /// in receipt order, and END_HEADERS completes the block.
    fn on_block_continuation(&mut self, ra: Reassembly, frame: Frame, payload: Vec<u8>) -> (r:
        Result<Vec<Action>, H2ConnectionError>)
        requires
            old(self).wf(),
            old(self).reassembly is None,
            ra.stream_id < 0x8000_0000,
            (ra.kind is Headers && ra.mode is Process) ==> {
                &&& !old(self).state.streams@.contains_key(ra.stream_id)
                &&& old(self).state.streams@.len() < old(self).state.self_settings.max_concurrent_streams
                &&& ra.stream_id == old(self).state.last_stream_id
                &&& ra.stream_id % 2 == 1
            },
            (ra.kind is Trailers && ra.mode is Process) ==> old(self).state.streams@.contains_key(
                ra.stream_id,
            ),
            frame.wf(),
        ensures
            final(self).wf(),
            final(self).state.self_settings == old(self).state.self_settings,
            final(self).state.peer_settings == old(self).state.peer_settings,
            final(self).state.goaway_recv == old(self).state.goaway_recv,
            final(self).state.last_stream_id == old(self).state.last_stream_id,
            frame.stream_id != ra.stream_id ==> r == Err::<Vec<Action>, _>(
                H2ConnectionError::ExpectedContinuationForStream {
                    stream_id: ra.stream_id,
                    continuation_stream_id: frame.stream_id,
                },
            ),
            (frame.stream_id == ra.stream_id && !(frame.frame_type is Continuation)) ==> r
                == Err::<Vec<Action>, _>(H2ConnectionError::ExpectedContinuationFrame {
                stream_id: ra.stream_id,
                frame_type: Some(frame.frame_type),
            }),
            (frame.stream_id == ra.stream_id && frame.frame_type is Continuation && !has_flag(
                frame.flags,
                FLAG_END_HEADERS,
            )) ==> (final(self).reassembly matches Some(ra2) && ra2.stream_id == ra.stream_id
                && ra2.kind == ra.kind && ra2.mode == ra.mode && ra2.end_stream == ra.end_stream
                && frags_view(ra2.fragments@) =~= frags_view(ra.fragments@).push(payload@)),
            (frame.stream_id == ra.stream_id && frame.frame_type is Continuation && has_flag(
                frame.flags,
                FLAG_END_HEADERS,
            ) && ra.kind is Headers && ra.mode is Process) ==> spec_accept_outcome(
                old(self).state.streams@,
                ra.stream_id,
                ra.end_stream,
                r,
                final(self).state,
            ),
            (frame.stream_id == ra.stream_id && frame.frame_type is Continuation && has_flag(
                frame.flags,
                FLAG_END_HEADERS,
            ) && ra.kind is Trailers && ra.mode is Process) ==> spec_trailers_outcome(
                old(self).state.streams@,
                ra.stream_id,
                r,
                final(self).state,
            ),
    {
        if frame.stream_id != ra.stream_id {
            return Err(H2ConnectionError::ExpectedContinuationForStream {
                stream_id: ra.stream_id,
                continuation_stream_id: frame.stream_id,
            });
        }
        match frame.frame_type {
            FrameType::Continuation => {},
            other => {
                return Err(H2ConnectionError::ExpectedContinuationFrame {
                    stream_id: ra.stream_id,
                    frame_type: Some(other),
                });
            },
        }
        let mut ra = ra;
        let ghost frags_before = ra.fragments@;
        ra.fragments.push(payload);
        proof {
            assert(frags_view(ra.fragments@) =~= frags_view(frags_before).push(
                ra.fragments@[frags_before.len() as int]@,
            ));
        }
        if flag_set(frame.flags, FLAG_END_HEADERS) {
            self.finish_block(ra.kind, ra.mode, ra.end_stream, ra.stream_id, ra.fragments)
        } else {
            self.reassembly = Some(ra);
            Ok(Vec::new())
        }
    }

    /// One inbound frame. Inside a header block only CONTINUATION for the
    /// same stream is accepted. A changed `last_stream_id` means exactly
    /// one thing: this HEADERS frame's odd, strictly increasing stream id
    /// was accepted. A PING request is echoed byte for byte; a
    /// PUSH_PROMISE from the client and a misaddressed SETTINGS, PING or
    /// GOAWAY abort the connection.
    pub fn on_frame(&mut self, frame: Frame, payload: Vec<u8>) -> (r: Result<
        Vec<Action>,
        H2ConnectionError,
    >)
        requires
            old(self).wf(),
            frame.wf(),
            payload@.len() == frame.len,
        ensures
            final(self).wf(),
            final(self).log@ == old(self).log@.push((frame, payload@)),
            final(self).state.self_settings == old(self).state.self_settings,
            old(self).state.last_stream_id <= final(self).state.last_stream_id,
            final(self).state.last_stream_id != old(self).state.last_stream_id ==> {
                &&& frame.frame_type == FrameType::Headers
                &&& final(self).state.last_stream_id == frame.stream_id
                &&& frame.stream_id > old(self).state.last_stream_id
                &&& frame.stream_id % 2 == 1
            },
            (!old(self).header_block_active() && frame.frame_type == FrameType::Ping
                && frame.stream_id == 0 && frame.len == 8 && !has_flag(frame.flags, FLAG_ACK))
                ==> (r matches Ok(a) && a@ =~= seq![
                Action::WriteFrame(
                    OutFrame {
                        frame: Frame {
                            frame_type: FrameType::Ping,
                            flags: FLAG_ACK,
                            len: 8u32,
                            stream_id: 0u32,
                        },
                        payload,
                    },
                ),
            ]),
            (!old(self).header_block_active() && frame.frame_type == FrameType::PushPromise) ==> r
                == Err::<Vec<Action>, _>(H2ConnectionError::ClientSentPushPromise),
            (!old(self).header_block_active() && frame.frame_type == FrameType::GoAway
                && frame.stream_id == 0) ==> (r matches Ok(a) && a@.len() == 0 && final(self).state.goaway_recv),
            (!old(self).header_block_active() && frame.frame_type is Continuation) ==> r == Err::<
                Vec<Action>,
                _,
            >(H2ConnectionError::UnexpectedContinuationFrame { stream_id: frame.stream_id }),
            (!old(self).header_block_active() && frame.frame_type == FrameType::Data && old(self).state.streams@.contains_key(frame.stream_id) && (old(self).state.streams@[frame.stream_id] is Open || old(self).state.streams@[frame.stream_id] is HalfClosedLocal) && has_flag(
                frame.flags,
                FLAG_END_STREAM,
            )) ==> (r matches Ok(a) && a@ =~= seq![
                Action::DeliverData {
                    stream_id: frame.stream_id,
                    bytes: payload,
                    end_stream: true,
                },
            ]),
            (old(self).header_block_active() && frame.frame_type is Continuation
                && frame.stream_id == old(self).reassembly.unwrap().stream_id && !has_flag(
                frame.flags,
                FLAG_END_HEADERS,
            )) ==> (final(self).reassembly matches Some(ra2) && frags_view(ra2.fragments@)
                =~= frags_view(old(self).reassembly.unwrap().fragments@).push(payload@)),
            (!old(self).header_block_active() && frame.frame_type == FrameType::Headers
                && spec_headers_premise(frame, payload@)) ==> spec_headers_outcome(
                *old(self),
                frame,
                r,
                final(self).state,
            ),
            (!old(self).header_block_active() && frame.frame_type == FrameType::Headers
                && spec_acceptable(*old(self), frame) && spec_headers_premise(frame, payload@)
                && has_flag(frame.flags, FLAG_END_HEADERS)) ==> (final(self).state.last_stream_id
                == frame.stream_id && spec_accept_outcome(
                old(self).state.streams@,
                frame.stream_id,
                has_flag(frame.flags, FLAG_END_STREAM),
                r,
                final(self).state,
            )),
            (!old(self).header_block_active() && frame.frame_type == FrameType::Headers
                && spec_acceptable(*old(self), frame) && spec_headers_premise(frame, payload@)
                && !has_flag(frame.flags, FLAG_END_HEADERS)) ==> (r matches Ok(a) && a@.len() == 0
                && final(self).state.last_stream_id == frame.stream_id
                && final(self).state.streams@ == old(self).state.streams@ && (final(self).reassembly matches Some(ra)
                && ra.stream_id == frame.stream_id && ra.kind is Headers && ra.mode is Process
                && ra.end_stream == has_flag(frame.flags, FLAG_END_STREAM))),
            (!old(self).header_block_active() && frame.frame_type == FrameType::Headers
                && !has_flag(frame.flags, FLAG_PRIORITY) && !has_flag(
                frame.flags,
                FLAG_END_HEADERS,
            )) ==> (r matches Ok(a) ==> (final(self).reassembly matches Some(ra2)
                && ra2.stream_id == frame.stream_id && ra2.end_stream == has_flag(
                frame.flags,
                FLAG_END_STREAM,
            ) && frags_view(ra2.fragments@) =~= seq![payload@])),
            (!old(self).header_block_active() && frame.frame_type == FrameType::Headers
                && old(self).state.streams@.contains_key(frame.stream_id) && (old(self).state.streams@[frame.stream_id] is Open
                || old(self).state.streams@[frame.stream_id] is HalfClosedLocal) && has_flag(
                frame.flags,
                FLAG_END_STREAM,
            ) && has_flag(frame.flags, FLAG_END_HEADERS) && spec_headers_premise(frame, payload@))
                ==> spec_trailers_outcome(
                old(self).state.streams@,
                frame.stream_id,
                r,
                final(self).state,
            ),
            (!old(self).header_block_active() && frame.frame_type == FrameType::Headers
                && has_flag(frame.flags, FLAG_PRIORITY) && payload@.len() < 5) ==> r == Err::<
                Vec<Action>,
                _,
            >(H2ConnectionError::PriorityPayloadTooShort { stream_id: frame.stream_id }),
            (!old(self).header_block_active() && frame.frame_type == FrameType::Headers
                && has_flag(frame.flags, FLAG_PRIORITY) && payload@.len() >= 5
                && crate::frame::spec_u31(payload@, 0) == frame.stream_id) ==> r == Err::<
                Vec<Action>,
                _,
            >(H2ConnectionError::HeadersInvalidPriority { stream_id: frame.stream_id }),
            (!old(self).header_block_active() && frame.frame_type == FrameType::Settings
                && frame.stream_id == 0 && !has_flag(frame.flags, FLAG_ACK)) ==> match
                spec_parse_settings(payload@, old(self).state.peer_settings) {
                Some(s) => final(self).state.peer_settings == s && (r matches Ok(a) && a@.len()
                    == 1 && (a@[0] matches Action::WriteFrame(f) && f.frame == (Frame {
                    frame_type: FrameType::Settings,
                    flags: FLAG_ACK,
                    len: 0u32,
                    stream_id: 0u32,
                }) && f.payload@.len() == 0)),
                None => r == Err::<Vec<Action>, _>(H2ConnectionError::SettingsInvalid),
            },
            (!old(self).header_block_active() && frame.frame_type == FrameType::Settings
                && frame.stream_id != 0) ==> r == Err::<Vec<Action>, _>(
                H2ConnectionError::SettingsWithNonZeroStreamId { stream_id: frame.stream_id },
            ),
            (!old(self).header_block_active() && frame.frame_type == FrameType::Settings
                && frame.stream_id == 0 && has_flag(frame.flags, FLAG_ACK)) ==> if payload@.len()
                == 0 {
                r matches Ok(a) && a@.len() == 0 && final(self).state.peer_settings == old(self).state.peer_settings
            } else {
                r == Err::<Vec<Action>, _>(H2ConnectionError::SettingsAckWithPayload {
                    len: payload@.len() as u32,
                })
            },
            (!old(self).header_block_active() && frame.frame_type == FrameType::Ping
                && frame.stream_id != 0) ==> r == Err::<Vec<Action>, _>(
                H2ConnectionError::PingFrameWithNonZeroStreamId { stream_id: frame.stream_id },
            ),
            (!old(self).header_block_active() && frame.frame_type == FrameType::Ping
                && frame.stream_id == 0 && frame.len != 8) ==> r == Err::<Vec<Action>, _>(
                H2ConnectionError::PingFrameInvalidLength { len: frame.len },
            ),
            (!old(self).header_block_active() && frame.frame_type == FrameType::Ping
                && frame.stream_id == 0 && frame.len == 8 && has_flag(frame.flags, FLAG_ACK))
                ==> (r matches Ok(a) && a@.len() == 0),
            (!old(self).header_block_active() && frame.frame_type == FrameType::GoAway
                && frame.stream_id != 0) ==> r == Err::<Vec<Action>, _>(
                H2ConnectionError::GoAwayWithNonZeroStreamId { stream_id: frame.stream_id },
            ),
            (!old(self).header_block_active() && frame.frame_type == FrameType::Data && !old(self).state.streams@.contains_key(frame.stream_id)) ==> r == Err::<Vec<Action>, _>(
                H2ConnectionError::StreamClosed { stream_id: frame.stream_id },
            ),
            (!old(self).header_block_active() && frame.frame_type == FrameType::Data && old(self).state.streams@.contains_key(frame.stream_id) && old(self).state.streams@[frame.stream_id] is HalfClosedRemote) ==> (r matches Ok(a)
                && a@.len() == 1 && (a@[0] matches Action::WriteFrame(f) && f.frame.frame_type
                == FrameType::RstStream && f.frame.stream_id == frame.stream_id && spec_be32(
                f.payload@,
                0,
            ) == KnownErrorCode::StreamClosed.spec_repr()) && final(self).state.streams@ == old(self).state.streams@.remove(frame.stream_id)),
            (!old(self).header_block_active() && frame.frame_type == FrameType::Data && old(self).state.streams@.contains_key(frame.stream_id) && (old(self).state.streams@[frame.stream_id] is Open || old(self).state.streams@[frame.stream_id] is HalfClosedLocal)) ==> {
                &&& (!has_flag(frame.flags, FLAG_END_STREAM) ==> final(self).state.streams@
                    == old(self).state.streams@)
                &&& ((has_flag(frame.flags, FLAG_END_STREAM) && old(self).state.streams@[frame.stream_id] is Open) ==> final(self).state.streams@ == old(self).state.streams@.insert(
                    frame.stream_id,
                    StreamState::HalfClosedRemote,
                ))
                &&& ((has_flag(frame.flags, FLAG_END_STREAM) && old(self).state.streams@[frame.stream_id] is HalfClosedLocal) ==> final(self).state.streams@ == old(self).state.streams@.remove(frame.stream_id))
            },
            (!old(self).header_block_active() && frame.frame_type == FrameType::RstStream
                && frame.len != 4) ==> (r matches Ok(a) && a@.len() == 1 && (a@[0]
                matches Action::WriteFrame(f) && f.frame.frame_type == FrameType::RstStream
                && f.frame.stream_id == frame.stream_id && spec_be32(f.payload@, 0)
                == KnownErrorCode::FrameSizeError.spec_repr()) && final(self).state.streams@
                == old(self).state.streams@.remove(frame.stream_id)),
            (!old(self).header_block_active() && frame.frame_type == FrameType::RstStream
                && frame.len == 4 && !old(self).state.streams@.contains_key(frame.stream_id))
                ==> r == Err::<Vec<Action>, _>(H2ConnectionError::RstStreamForUnknownStream {
                stream_id: frame.stream_id,
            }),
            (!old(self).header_block_active() && frame.frame_type == FrameType::RstStream
                && frame.len == 4 && old(self).state.streams@.contains_key(frame.stream_id))
                ==> {
                &&& final(self).state.streams@ == old(self).state.streams@.remove(
                    frame.stream_id,
                )
                &&& ((old(self).state.streams@[frame.stream_id] is Open || old(self).state.streams@[frame.stream_id] is HalfClosedLocal) ==> (r matches Ok(a) && a@ =~= seq![
                    Action::ResetIncoming {
                        stream_id: frame.stream_id,
                        error: H2StreamError::ReceivedRstStream,
                    },
                ]))
                &&& (old(self).state.streams@[frame.stream_id] is HalfClosedRemote ==> (
                r matches Ok(a) && a@.len() == 0))
            },
            (!old(self).header_block_active() && frame.frame_type == FrameType::Ping) ==> final(self).state == old(self).state,
            (!old(self).header_block_active() && frame.frame_type == FrameType::PushPromise)
                ==> final(self).state == old(self).state,
            (!old(self).header_block_active() && frame.frame_type == FrameType::GoAway) ==> (
            final(self).state.streams@ == old(self).state.streams@ && final(self).state.peer_settings == old(self).state.peer_settings && final(self).state.last_stream_id
                == old(self).state.last_stream_id),
            (!old(self).header_block_active() && frame.frame_type == FrameType::WindowUpdate)
                ==> final(self).state == old(self).state,
            !(frame.frame_type is Settings) ==> final(self).state.peer_settings == old(self).state.peer_settings,
            !(frame.frame_type is GoAway) ==> final(self).state.goaway_recv == old(self).state.goaway_recv,
            (!old(self).header_block_active() && frame.frame_type == FrameType::WindowUpdate)
                ==> {
                &&& payload@.len() != 4 ==> r == Err::<Vec<Action>, _>(
                    H2ConnectionError::WindowUpdateInvalidLength { len: payload@.len() as u32 },
                )
                &&& (payload@.len() == 4 && crate::frame::spec_u31(payload@, 0) == 0) ==> r
                    == Err::<Vec<Action>, _>(H2ConnectionError::WindowUpdateZeroIncrement)
                &&& (payload@.len() == 4 && crate::frame::spec_u31(payload@, 0) != 0
                    && frame.stream_id != 0 && !old(self).state.streams@.contains_key(
                    frame.stream_id,
                )) ==> r == Err::<Vec<Action>, _>(
                    H2ConnectionError::WindowUpdateForUnknownStream {
                        stream_id: frame.stream_id,
                    },
                )
                &&& (payload@.len() == 4 && crate::frame::spec_u31(payload@, 0) != 0 && (
                frame.stream_id == 0 || old(self).state.streams@.contains_key(frame.stream_id)))
                    ==> (r matches Ok(a) && a@.len() == 0)
            },
            (!old(self).header_block_active() && frame.frame_type == FrameType::Priority) ==> {
                &&& (payload@.len() == 5 && crate::frame::spec_u31(payload@, 0)
                    == frame.stream_id) ==> r == Err::<Vec<Action>, _>(
                    H2ConnectionError::HeadersInvalidPriority { stream_id: frame.stream_id },
                )
                &&& (payload@.len() == 5 && crate::frame::spec_u31(payload@, 0)
                    != frame.stream_id) ==> (r matches Ok(a) && a@.len() == 0)
                &&& payload@.len() != 5 ==> (r matches Ok(a) && a@.len() == 1 && (a@[0]
                    matches Action::WriteFrame(f) && f.frame.frame_type == FrameType::RstStream
                    && f.frame.stream_id == frame.stream_id && spec_be32(f.payload@, 0)
                    == KnownErrorCode::FrameSizeError.spec_repr()))
            },
            (!old(self).header_block_active() && frame.frame_type matches FrameType::Unknown(c))
                ==> (r matches Ok(a) && a@.len() == 0 && final(self).state == old(self).state
                && final(self).reassembly == old(self).reassembly),
            (old(self).header_block_active() && frame.stream_id != old(self).reassembly.unwrap().stream_id) ==> r == Err::<Vec<Action>, _>(
                H2ConnectionError::ExpectedContinuationForStream {
                    stream_id: old(self).reassembly.unwrap().stream_id,
                    continuation_stream_id: frame.stream_id,
                },
            ),
            (old(self).header_block_active() && frame.stream_id == old(self).reassembly.unwrap().stream_id && !(frame.frame_type is Continuation)) ==> r
                == Err::<Vec<Action>, _>(H2ConnectionError::ExpectedContinuationFrame {
                stream_id: old(self).reassembly.unwrap().stream_id,
                frame_type: Some(frame.frame_type),
            }),
            (old(self).header_block_active() && frame.frame_type is Continuation
                && frame.stream_id == old(self).reassembly.unwrap().stream_id && has_flag(
                frame.flags,
                FLAG_END_HEADERS,
            ) && old(self).reassembly.unwrap().kind is Headers && old(self).reassembly.unwrap().mode is Process) ==> spec_accept_outcome(
                old(self).state.streams@,
                old(self).reassembly.unwrap().stream_id,
                old(self).reassembly.unwrap().end_stream,
                r,
                final(self).state,
            ),
            (old(self).header_block_active() && frame.frame_type is Continuation
                && frame.stream_id == old(self).reassembly.unwrap().stream_id && has_flag(
                frame.flags,
                FLAG_END_HEADERS,
            ) && old(self).reassembly.unwrap().kind is Trailers && old(self).reassembly.unwrap().mode is Process) ==> spec_trailers_outcome(
                old(self).state.streams@,
                old(self).reassembly.unwrap().stream_id,
                r,
                final(self).state,
            ),
    {
        let ghost entry_log = self.log@;
        let ghost pv = payload@;
        let ra = self.reassembly.take();
        let r = match ra {
            Some(ra) => self.on_block_continuation(ra, frame, payload),
            None => match frame.frame_type {
                FrameType::Data => self.on_data(frame, payload),
                FrameType::Headers => self.on_headers(frame, payload),
                FrameType::Priority => self.on_priority(frame, payload),
                FrameType::RstStream => self.on_rst_stream(frame),
                FrameType::Settings => self.on_settings(frame, payload),
                FrameType::PushPromise => Err(H2ConnectionError::ClientSentPushPromise),
                FrameType::Ping => self.on_ping(frame, payload),
                FrameType::GoAway => self.on_goaway(frame),
                FrameType::WindowUpdate => self.on_window_update(frame, payload),
                FrameType::Continuation => Err(H2ConnectionError::UnexpectedContinuationFrame {
                    stream_id: frame.stream_id,
                }),
                FrameType::Unknown(_) => Ok(Vec::new()),
            },
        };
        self.log = Ghost(entry_log.push((frame, pv)));
        r
    }
}


/// The `:status` pseudo-header name.
pub open spec fn spec_status_name() -> Seq<u8> {
    seq![0x3au8, 0x73u8, 0x74u8, 0x61u8, 0x74u8, 0x75u8, 0x73u8]
}

/// The `transfer-encoding` header name, which has no meaning here and is
/// stripped from responses.
pub open spec fn spec_te_name() -> Seq<u8> {
    seq![
        0x74u8, 0x72u8, 0x61u8, 0x6eu8, 0x73u8, 0x66u8, 0x65u8, 0x72u8, 0x2du8, 0x65u8, 0x6eu8,
        0x63u8, 0x6fu8, 0x64u8, 0x69u8, 0x6eu8, 0x67u8,
    ]
}

/// A decimal digit as its ASCII byte.
pub open spec fn spec_dec_digit(d: int) -> u8 {
    (0x30 + d) as u8
}

/// A three-digit status code as ASCII.
pub open spec fn spec_status_bytes(status: u16) -> Seq<u8> {
    seq![
        spec_dec_digit(status as int / 100 % 10),
        spec_dec_digit(status as int / 10 % 10),
        spec_dec_digit(status as int % 10),
    ]
}

/// Response headers with `transfer-encoding` dropped, from index `i` on.
pub open spec fn spec_filtered_headers(hs: Seq<(Seq<u8>, Seq<u8>)>, i: int) -> Seq<
    (Seq<u8>, Seq<u8>),
>
    decreases hs.len() - i,
{
    if i < 0 || i >= hs.len() {
        Seq::empty()
    } else if hs[i].0 == spec_te_name() {
        spec_filtered_headers(hs, i + 1)
    } else {
        seq![hs[i]] + spec_filtered_headers(hs, i + 1)
    }
}

/// The field list a response is encoded from: `:status` first, then the
/// response headers in order, minus `transfer-encoding`.
pub open spec fn spec_response_fields(status: u16, hs: Seq<(Seq<u8>, Seq<u8>)>) -> Seq<
    (Seq<u8>, Seq<u8>),
> {
    seq![(spec_status_name(), spec_status_bytes(status))] + spec_filtered_headers(hs, 0)
}

/// A three-digit status code rendered as ASCII decimal.
pub fn status_bytes(status: u16) -> (r: Vec<u8>)
    requires
        100 <= status <= 999,
    ensures
        r@ =~= spec_status_bytes(status),
{
    let d0: u8 = 0x30 + (status / 100 % 10) as u8;
    let d1: u8 = 0x30 + (status / 10 % 10) as u8;
    let d2: u8 = 0x30 + (status % 10) as u8;
    let r: Vec<u8> = vec![d0, d1, d2];
    r
}

/// Builds the field list for a response header block: `:status`, then
/// the headers in their order with `transfer-encoding` dropped.
pub fn response_fields(res: &Response) -> (r: Vec<HeaderField>)
    requires
        100 <= res.status <= 999,
    ensures
        crate::headers::fields_view(r@) =~= spec_response_fields(
            res.status,
            crate::headers::fields_view(res.headers@),
        ),
{
    let ghost hv = crate::headers::fields_view(res.headers@);
    let mut te = Vec::new();
    te.push(0x74u8);
    te.push(0x72u8);
    te.push(0x61u8);
    te.push(0x6eu8);
    te.push(0x73u8);
    te.push(0x66u8);
    te.push(0x65u8);
    te.push(0x72u8);
    te.push(0x2du8);
    te.push(0x65u8);
    te.push(0x6eu8);
    te.push(0x63u8);
    te.push(0x6fu8);
    te.push(0x64u8);
    te.push(0x69u8);
    te.push(0x6eu8);
    te.push(0x67u8);
    proof {
        assert(te@ =~= spec_te_name());
    }
    let status_name: Vec<u8> = vec![0x3au8, 0x73u8, 0x74u8, 0x61u8, 0x74u8, 0x75u8, 0x73u8];
    proof {
        assert(status_name@ =~= spec_status_name());
    }
    let mut out: Vec<HeaderField> = Vec::new();
    out.push(HeaderField { name: status_name, value: status_bytes(res.status) });
    proof {
        assert(crate::headers::fields_view(out@) =~= seq![
            (spec_status_name(), spec_status_bytes(res.status)),
        ]);
    }
    let n = res.headers.len();
    let mut i: usize = 0;
    while i < n
        invariant
            0 <= i <= n,
            res.headers@.len() == n,
            hv == crate::headers::fields_view(res.headers@),
            te@ =~= spec_te_name(),
            spec_response_fields(res.status, hv) =~= crate::headers::fields_view(out@)
                + spec_filtered_headers(hv, i as int),
        decreases n - i,
    {
        let ghost out_before = crate::headers::fields_view(out@);
        let name = &res.headers[i].name;
        if !crate::headers::bytes_eq(name.as_slice(), te.as_slice()) {
            out.push(
                HeaderField { name: name.clone(), value: res.headers[i].value.clone() },
            );
            proof {
                assert(crate::headers::fields_view(out@) =~= out_before.push(hv[i as int]));
                assert(spec_filtered_headers(hv, i as int) == seq![hv[i as int]]
                    + spec_filtered_headers(hv, i as int + 1));
                assert(out_before + (seq![hv[i as int]] + spec_filtered_headers(
                    hv,
                    i as int + 1,
                )) =~= out_before.push(hv[i as int]) + spec_filtered_headers(hv, i as int + 1));
            }
        } else {
            proof {
                assert(hv[i as int].0 == spec_te_name());
                assert(spec_filtered_headers(hv, i as int) == spec_filtered_headers(
                    hv,
                    i as int + 1,
                ));
            }
        }
        i += 1;
    }
    proof {
        assert(spec_filtered_headers(hv, n as int) =~= Seq::<(Seq<u8>, Seq<u8>)>::empty());
        assert(crate::headers::fields_view(out@) + Seq::<(Seq<u8>, Seq<u8>)>::empty()
            =~= crate::headers::fields_view(out@));
    }
    out
}

impl Processor {
    /// One outbound application event. Response headers are HPACK-encoded
    /// (the pairs are exactly `response_fields`) and framed with
    /// END_HEADERS; a body chunk becomes a DATA frame; the body's end is
    /// an empty DATA with END_STREAM that half-closes or closes the
    /// stream. A payload past the wire's 24-bit length field aborts the
    /// connection.
    pub fn on_event(&mut self, ev: H2Event) -> (r: Result<Vec<Action>, H2ConnectionError>)
        requires
            old(self).wf(),
            !old(self).header_block_active(),
            ev.stream_id < 0x8000_0000,
            ev.payload matches H2EventPayload::Headers(res) ==> 100 <= res.status <= 999,
        ensures
            final(self).wf(),
            !final(self).header_block_active(),
            final(self).log == old(self).log,
            final(self).state.last_stream_id == old(self).state.last_stream_id,
            final(self).state.self_settings == old(self).state.self_settings,
            ev.payload matches H2EventPayload::Headers(res) ==> match r {
                Ok(a) => a@.len() == 1 && (a@[0] matches Action::WriteFrame(f) && f.wf()
                    && f.frame.frame_type == FrameType::Headers && f.frame.flags
                    == FLAG_END_HEADERS && f.frame.stream_id == ev.stream_id) && final(self).state.streams@ == old(self).state.streams@,
                Err(e) => e matches H2ConnectionError::FrameTooLarge { .. },
            },
            ev.payload matches H2EventPayload::BodyChunk(chunk) ==> match r {
                Ok(a) => a@.len() == 1 && (a@[0] matches Action::WriteFrame(f) && f.wf()
                    && f.frame.frame_type == FrameType::Data && f.frame.flags == 0
                    && f.frame.stream_id == ev.stream_id && f.payload == chunk) && final(self).state.streams@ == old(self).state.streams@,
                Err(e) => e matches H2ConnectionError::FrameTooLarge { .. },
            },
            ev.payload matches H2EventPayload::BodyChunk(chunk) ==> (r is Ok <==> chunk@.len()
                < 0x1000000),
            ev.payload is BodyEnd ==> {
                &&& r matches Ok(a) && a@.len() == 1 && (a@[0] matches Action::WriteFrame(f)
                    && f.frame == (Frame {
                    frame_type: FrameType::Data,
                    flags: FLAG_END_STREAM,
                    len: 0u32,
                    stream_id: ev.stream_id,
                }) && f.payload@.len() == 0)
                &&& (old(self).state.streams@.contains_key(ev.stream_id) && old(self).state.streams@[ev.stream_id] is Open) ==> final(self).state.streams@ == old(self).state.streams@.insert(ev.stream_id, StreamState::HalfClosedLocal)
                &&& (old(self).state.streams@.contains_key(ev.stream_id) && !(old(self).state.streams@[ev.stream_id] is Open)) ==> final(self).state.streams@ == old(self).state.streams@.remove(ev.stream_id)
                &&& !old(self).state.streams@.contains_key(ev.stream_id) ==> final(self).state.streams@ == old(self).state.streams@
            },
    {
        let sid = ev.stream_id;
        match ev.payload {
            H2EventPayload::Headers(res) => {
                let fields = response_fields(&res);
                let payload = hpack_encode(&mut self.hpack_enc, &fields);
                if payload.len() >= 0x1000000 {
                    let fs: u32 = if payload.len() < 0xffff_ffff {
                        payload.len() as u32
                    } else {
                        0xffff_ffffu32
                    };
                    return Err(H2ConnectionError::FrameTooLarge {
                        frame_type: FrameType::Headers,
                        frame_size: fs,
                        max_frame_size: 0xffffff,
                    });
                }
                let frame = Frame {
                    frame_type: FrameType::Headers,
                    flags: FLAG_END_HEADERS,
                    len: payload.len() as u32,
                    stream_id: sid,
                };
                let mut actions: Vec<Action> = Vec::new();
                actions.push(Action::WriteFrame(OutFrame { frame, payload }));
                Ok(actions)
            },
            H2EventPayload::BodyChunk(chunk) => {
                if chunk.len() >= 0x1000000 {
                    let fs: u32 = if chunk.len() < 0xffff_ffff {
                        chunk.len() as u32
                    } else {
                        0xffff_ffffu32
                    };
                    return Err(H2ConnectionError::FrameTooLarge {
                        frame_type: FrameType::Data,
                        frame_size: fs,
                        max_frame_size: 0xffffff,
                    });
                }
                let frame = Frame {
                    frame_type: FrameType::Data,
                    flags: 0,
                    len: chunk.len() as u32,
                    stream_id: sid,
                };
                let mut actions: Vec<Action> = Vec::new();
                actions.push(Action::WriteFrame(OutFrame { frame, payload: chunk }));
                Ok(actions)
            },
            H2EventPayload::BodyEnd => {
                match self.state.stream_state(sid) {
                    Some(StreamState::Open) => {
                        self.state.insert_stream(sid, StreamState::HalfClosedLocal);
                        proof {
                            broadcast use vstd::set_lib::group_set_lib_default;

                            assert(self.state.streams@.dom() =~= old(self).state.streams@.dom().insert(sid));
                            assert forall|k: u32| #[trigger]
                                self.state.streams@.contains_key(k) implies k % 2 == 1 && 0 < k
                                <= self.state.last_stream_id && self.state.streams@[k]
                                != StreamState::Transition by {
                                if k != sid {
                                    assert(old(self).state.streams@.contains_key(k));
                                }
                            }
                        }
                    },
                    Some(_) => {
                        self.state.remove_stream(sid);
                    },
                    None => {},
                }
                let frame = Frame {
                    frame_type: FrameType::Data,
                    flags: FLAG_END_STREAM,
                    len: 0,
                    stream_id: sid,
                };
                let mut actions: Vec<Action> = Vec::new();
                actions.push(Action::WriteFrame(OutFrame { frame, payload: Vec::new() }));
                Ok(actions)
            },
        }
    }
}

} // verus!
