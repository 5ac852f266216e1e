//! Connection-level and stream-level error taxonomies with their GOAWAY /
//! RST_STREAM code mapping, per-stream lifecycle states, outbound
//! application events, and the actions the processor hands back to the
//! task that runs it.

use vstd::prelude::*;
use vstd::string::StringSliceAdditionalSpecFns;
use crate::frame::{Frame, FrameType};

verus! {

/// Error codes defined by the protocol, as carried in GOAWAY and
/// RST_STREAM payloads.
#[derive(Clone, Copy, PartialEq, Eq, Structural, Debug)]
pub enum KnownErrorCode {
    NoError,
    ProtocolError,
    InternalError,
    FlowControlError,
    SettingsTimeout,
    StreamClosed,
    FrameSizeError,
    RefusedStream,
    Cancel,
    CompressionError,
}

impl KnownErrorCode {
    /// The 32-bit wire value of this code.
    pub open spec fn spec_repr(self) -> u32 {
        match self {
            KnownErrorCode::NoError => 0x0,
            KnownErrorCode::ProtocolError => 0x1,
            KnownErrorCode::InternalError => 0x2,
            KnownErrorCode::FlowControlError => 0x3,
            KnownErrorCode::SettingsTimeout => 0x4,
            KnownErrorCode::StreamClosed => 0x5,
            KnownErrorCode::FrameSizeError => 0x6,
            KnownErrorCode::RefusedStream => 0x7,
            KnownErrorCode::Cancel => 0x8,
            KnownErrorCode::CompressionError => 0x9,
        }
    }

    pub fn repr(&self) -> (r: u32)
        ensures
            r == self.spec_repr(),
    {
        match self {
            KnownErrorCode::NoError => 0x0,
            KnownErrorCode::ProtocolError => 0x1,
            KnownErrorCode::InternalError => 0x2,
            KnownErrorCode::FlowControlError => 0x3,
            KnownErrorCode::SettingsTimeout => 0x4,
            KnownErrorCode::StreamClosed => 0x5,
            KnownErrorCode::FrameSizeError => 0x6,
            KnownErrorCode::RefusedStream => 0x7,
            KnownErrorCode::Cancel => 0x8,
            KnownErrorCode::CompressionError => 0x9,
        }
    }
}

/// A violation that aborts the whole connection: a GOAWAY with the mapped
/// code is emitted and no further frame follows it.
#[derive(Clone, Copy, PartialEq, Eq, Structural, Debug)]
pub enum H2ConnectionError {
    InvalidPreface,
    UnexpectedEof,
    FrameTooLarge { frame_type: FrameType, frame_size: u32, max_frame_size: u32 },
    IncompleteFrame { frame_type: FrameType, frame_size: u32 },
    PaddedFrameEmpty { frame_type: FrameType },
    PaddedFrameTooShort { frame_type: FrameType, padding_length: u32, frame_size: u32 },
    HeadersInvalidPriority { stream_id: u32 },
    PriorityPayloadTooShort { stream_id: u32 },
    ClientSidShouldBeOdd,
    ClientSidShouldBeNumericallyIncreasing { stream_id: u32, last_stream_id: u32 },
    StreamClosed { stream_id: u32 },
    RstStreamForUnknownStream { stream_id: u32 },
    SettingsWithNonZeroStreamId { stream_id: u32 },
    SettingsAckWithPayload { len: u32 },
    SettingsInvalid,
    ClientSentPushPromise,
    PingFrameWithNonZeroStreamId { stream_id: u32 },
    PingFrameInvalidLength { len: u32 },
    GoAwayWithNonZeroStreamId { stream_id: u32 },
    WindowUpdateInvalidLength { len: u32 },
    WindowUpdateZeroIncrement,
    WindowUpdateForUnknownStream { stream_id: u32 },
    UnexpectedContinuationFrame { stream_id: u32 },
    ExpectedContinuationFrame { stream_id: u32, frame_type: Option<FrameType> },
    ExpectedContinuationForStream { stream_id: u32, continuation_stream_id: u32 },
    CompressionError,
}

impl H2ConnectionError {
    /// The GOAWAY code this error maps to.
    pub open spec fn spec_error_code(self) -> KnownErrorCode {
        match self {
            H2ConnectionError::InvalidPreface => KnownErrorCode::ProtocolError,
            H2ConnectionError::UnexpectedEof => KnownErrorCode::ProtocolError,
            H2ConnectionError::FrameTooLarge { .. } => KnownErrorCode::FrameSizeError,
            H2ConnectionError::IncompleteFrame { .. } => KnownErrorCode::ProtocolError,
            H2ConnectionError::PaddedFrameEmpty { .. } => KnownErrorCode::ProtocolError,
            H2ConnectionError::PaddedFrameTooShort { .. } => KnownErrorCode::ProtocolError,
            H2ConnectionError::HeadersInvalidPriority { .. } => KnownErrorCode::ProtocolError,
            H2ConnectionError::PriorityPayloadTooShort { .. } => KnownErrorCode::FrameSizeError,
            H2ConnectionError::ClientSidShouldBeOdd => KnownErrorCode::ProtocolError,
            H2ConnectionError::ClientSidShouldBeNumericallyIncreasing { .. }
                => KnownErrorCode::ProtocolError,
            H2ConnectionError::StreamClosed { .. } => KnownErrorCode::StreamClosed,
            H2ConnectionError::RstStreamForUnknownStream { .. } => KnownErrorCode::ProtocolError,
            H2ConnectionError::SettingsWithNonZeroStreamId { .. } => KnownErrorCode::ProtocolError,
            H2ConnectionError::SettingsAckWithPayload { .. } => KnownErrorCode::FrameSizeError,
            H2ConnectionError::SettingsInvalid => KnownErrorCode::ProtocolError,
            H2ConnectionError::ClientSentPushPromise => KnownErrorCode::ProtocolError,
            H2ConnectionError::PingFrameWithNonZeroStreamId { .. }
                => KnownErrorCode::ProtocolError,
            H2ConnectionError::PingFrameInvalidLength { .. } => KnownErrorCode::FrameSizeError,
            H2ConnectionError::GoAwayWithNonZeroStreamId { .. } => KnownErrorCode::ProtocolError,
            H2ConnectionError::WindowUpdateInvalidLength { .. } => KnownErrorCode::FrameSizeError,
            H2ConnectionError::WindowUpdateZeroIncrement => KnownErrorCode::ProtocolError,
            H2ConnectionError::WindowUpdateForUnknownStream { .. }
                => KnownErrorCode::ProtocolError,
            H2ConnectionError::UnexpectedContinuationFrame { .. }
                => KnownErrorCode::ProtocolError,
            H2ConnectionError::ExpectedContinuationFrame { .. } => KnownErrorCode::ProtocolError,
            H2ConnectionError::ExpectedContinuationForStream { .. }
                => KnownErrorCode::ProtocolError,
            H2ConnectionError::CompressionError => KnownErrorCode::CompressionError,
        }
    }

    pub fn as_known_error_code(&self) -> (r: KnownErrorCode)
        ensures
            r == self.spec_error_code(),
    {
        match self {
            H2ConnectionError::InvalidPreface => KnownErrorCode::ProtocolError,
            H2ConnectionError::UnexpectedEof => KnownErrorCode::ProtocolError,
            H2ConnectionError::FrameTooLarge { .. } => KnownErrorCode::FrameSizeError,
            H2ConnectionError::IncompleteFrame { .. } => KnownErrorCode::ProtocolError,
            H2ConnectionError::PaddedFrameEmpty { .. } => KnownErrorCode::ProtocolError,
            H2ConnectionError::PaddedFrameTooShort { .. } => KnownErrorCode::ProtocolError,
            H2ConnectionError::HeadersInvalidPriority { .. } => KnownErrorCode::ProtocolError,
            H2ConnectionError::PriorityPayloadTooShort { .. } => KnownErrorCode::FrameSizeError,
            H2ConnectionError::ClientSidShouldBeOdd => KnownErrorCode::ProtocolError,
            H2ConnectionError::ClientSidShouldBeNumericallyIncreasing { .. }
                => KnownErrorCode::ProtocolError,
            H2ConnectionError::StreamClosed { .. } => KnownErrorCode::StreamClosed,
            H2ConnectionError::RstStreamForUnknownStream { .. } => KnownErrorCode::ProtocolError,
            H2ConnectionError::SettingsWithNonZeroStreamId { .. } => KnownErrorCode::ProtocolError,
            H2ConnectionError::SettingsAckWithPayload { .. } => KnownErrorCode::FrameSizeError,
            H2ConnectionError::SettingsInvalid => KnownErrorCode::ProtocolError,
            H2ConnectionError::ClientSentPushPromise => KnownErrorCode::ProtocolError,
            H2ConnectionError::PingFrameWithNonZeroStreamId { .. }
                => KnownErrorCode::ProtocolError,
            H2ConnectionError::PingFrameInvalidLength { .. } => KnownErrorCode::FrameSizeError,
            H2ConnectionError::GoAwayWithNonZeroStreamId { .. } => KnownErrorCode::ProtocolError,
            H2ConnectionError::WindowUpdateInvalidLength { .. } => KnownErrorCode::FrameSizeError,
            H2ConnectionError::WindowUpdateZeroIncrement => KnownErrorCode::ProtocolError,
            H2ConnectionError::WindowUpdateForUnknownStream { .. }
                => KnownErrorCode::ProtocolError,
            H2ConnectionError::UnexpectedContinuationFrame { .. }
                => KnownErrorCode::ProtocolError,
            H2ConnectionError::ExpectedContinuationFrame { .. } => KnownErrorCode::ProtocolError,
            H2ConnectionError::ExpectedContinuationForStream { .. }
                => KnownErrorCode::ProtocolError,
            H2ConnectionError::CompressionError => KnownErrorCode::CompressionError,
        }
    }

    /// The diagnostic text carried in the GOAWAY payload, as UTF-8 bytes.
    pub open spec fn spec_debug_bytes(self) -> Seq<u8> {
        self.spec_debug_text().spec_bytes()
    }

    /// The diagnostic text for each variant.
    pub open spec fn spec_debug_text(self) -> &'static str {
        match self {
            H2ConnectionError::InvalidPreface => "invalid connection preface",
            H2ConnectionError::UnexpectedEof => "connection closed unexpectedly",
            H2ConnectionError::FrameTooLarge { .. } => "frame too large",
            H2ConnectionError::IncompleteFrame { .. } => "connection closed mid-frame",
            H2ConnectionError::PaddedFrameEmpty { .. } => "padded frame with empty payload",
            H2ConnectionError::PaddedFrameTooShort { .. } => "padding longer than payload",
            H2ConnectionError::HeadersInvalidPriority { .. } => "stream depends on itself",
            H2ConnectionError::PriorityPayloadTooShort { .. } => "priority payload too short",
            H2ConnectionError::ClientSidShouldBeOdd => "client stream id should be odd",
            H2ConnectionError::ClientSidShouldBeNumericallyIncreasing { .. }
                => "client stream id should increase",
            H2ConnectionError::StreamClosed { .. } => "stream closed",
            H2ConnectionError::RstStreamForUnknownStream { .. }
                => "rst_stream for unknown stream",
            H2ConnectionError::SettingsWithNonZeroStreamId { .. }
                => "settings with non-zero stream id",
            H2ConnectionError::SettingsAckWithPayload { .. } => "settings ack with payload",
            H2ConnectionError::SettingsInvalid => "invalid settings payload",
            H2ConnectionError::ClientSentPushPromise => "client sent push_promise",
            H2ConnectionError::PingFrameWithNonZeroStreamId { .. }
                => "ping with non-zero stream id",
            H2ConnectionError::PingFrameInvalidLength { .. } => "ping payload must be 8 bytes",
            H2ConnectionError::GoAwayWithNonZeroStreamId { .. }
                => "goaway with non-zero stream id",
            H2ConnectionError::WindowUpdateInvalidLength { .. }
                => "window_update payload must be 4 bytes",
            H2ConnectionError::WindowUpdateZeroIncrement => "window_update with zero increment",
            H2ConnectionError::WindowUpdateForUnknownStream { .. }
                => "window_update for unknown stream",
            H2ConnectionError::UnexpectedContinuationFrame { .. }
                => "continuation outside a header block",
            H2ConnectionError::ExpectedContinuationFrame { .. } => "expected continuation frame",
            H2ConnectionError::ExpectedContinuationForStream { .. }
                => "continuation for another stream",
            H2ConnectionError::CompressionError => "header block decode failed",
        }
    }

    pub fn debug_text(&self) -> (r: &'static str)
        ensures
            r == self.spec_debug_text(),
    {
        match self {
            H2ConnectionError::InvalidPreface => "invalid connection preface",
            H2ConnectionError::UnexpectedEof => "connection closed unexpectedly",
            H2ConnectionError::FrameTooLarge { .. } => "frame too large",
            H2ConnectionError::IncompleteFrame { .. } => "connection closed mid-frame",
            H2ConnectionError::PaddedFrameEmpty { .. } => "padded frame with empty payload",
            H2ConnectionError::PaddedFrameTooShort { .. } => "padding longer than payload",
            H2ConnectionError::HeadersInvalidPriority { .. } => "stream depends on itself",
            H2ConnectionError::PriorityPayloadTooShort { .. } => "priority payload too short",
            H2ConnectionError::ClientSidShouldBeOdd => "client stream id should be odd",
            H2ConnectionError::ClientSidShouldBeNumericallyIncreasing { .. }
                => "client stream id should increase",
            H2ConnectionError::StreamClosed { .. } => "stream closed",
            H2ConnectionError::RstStreamForUnknownStream { .. }
                => "rst_stream for unknown stream",
            H2ConnectionError::SettingsWithNonZeroStreamId { .. }
                => "settings with non-zero stream id",
            H2ConnectionError::SettingsAckWithPayload { .. } => "settings ack with payload",
            H2ConnectionError::SettingsInvalid => "invalid settings payload",
            H2ConnectionError::ClientSentPushPromise => "client sent push_promise",
            H2ConnectionError::PingFrameWithNonZeroStreamId { .. }
                => "ping with non-zero stream id",
            H2ConnectionError::PingFrameInvalidLength { .. } => "ping payload must be 8 bytes",
            H2ConnectionError::GoAwayWithNonZeroStreamId { .. }
                => "goaway with non-zero stream id",
            H2ConnectionError::WindowUpdateInvalidLength { .. }
                => "window_update payload must be 4 bytes",
            H2ConnectionError::WindowUpdateZeroIncrement => "window_update with zero increment",
            H2ConnectionError::WindowUpdateForUnknownStream { .. }
                => "window_update for unknown stream",
            H2ConnectionError::UnexpectedContinuationFrame { .. }
                => "continuation outside a header block",
            H2ConnectionError::ExpectedContinuationFrame { .. } => "expected continuation frame",
            H2ConnectionError::ExpectedContinuationForStream { .. }
                => "continuation for another stream",
            H2ConnectionError::CompressionError => "header block decode failed",
        }
    }
}

/// A violation scoped to one stream: an RST_STREAM with the mapped code is
/// emitted and the connection goes on.
#[derive(Clone, Copy, PartialEq, Eq, Structural, Debug)]
pub enum H2StreamError {
    StreamClosed,
    RefusedStream,
    TrailersNotEndStream,
    InvalidPriorityFrameSize { frame_size: u32 },
    InvalidRstStreamFrameSize { frame_size: u32 },
    ReceivedRstStream,
    MalformedRequest,
}

impl H2StreamError {
    /// The RST_STREAM code this error maps to.
    pub open spec fn spec_error_code(self) -> KnownErrorCode {
        match self {
            H2StreamError::StreamClosed => KnownErrorCode::StreamClosed,
            H2StreamError::RefusedStream => KnownErrorCode::RefusedStream,
            H2StreamError::TrailersNotEndStream => KnownErrorCode::ProtocolError,
            H2StreamError::InvalidPriorityFrameSize { .. } => KnownErrorCode::FrameSizeError,
            H2StreamError::InvalidRstStreamFrameSize { .. } => KnownErrorCode::FrameSizeError,
            H2StreamError::ReceivedRstStream => KnownErrorCode::Cancel,
            H2StreamError::MalformedRequest => KnownErrorCode::ProtocolError,
        }
    }

    pub fn as_known_error_code(&self) -> (r: KnownErrorCode)
        ensures
            r == self.spec_error_code(),
    {
        match self {
            H2StreamError::StreamClosed => KnownErrorCode::StreamClosed,
            H2StreamError::RefusedStream => KnownErrorCode::RefusedStream,
            H2StreamError::TrailersNotEndStream => KnownErrorCode::ProtocolError,
            H2StreamError::InvalidPriorityFrameSize { .. } => KnownErrorCode::FrameSizeError,
            H2StreamError::InvalidRstStreamFrameSize { .. } => KnownErrorCode::FrameSizeError,
            H2StreamError::ReceivedRstStream => KnownErrorCode::Cancel,
            H2StreamError::MalformedRequest => KnownErrorCode::ProtocolError,
        }
    }
}

/// Per-stream lifecycle. `Transition` is the in-place mutation sentinel:
/// it may exist only while a handler is rewriting an entry, never once the
/// handler has returned.
#[derive(Clone, Copy, PartialEq, Eq, Structural, Debug)]
pub enum StreamState {
    Open,
    HalfClosedRemote,
    HalfClosedLocal,
    Transition,
}

/// One decoded header: name and value as raw bytes.
#[derive(Clone, PartialEq, Eq, Debug)]
pub struct HeaderField {
    pub name: Vec<u8>,
    pub value: Vec<u8>,
}

/// A validated request assembled from a decoded header block.
#[derive(Clone, PartialEq, Eq, Debug)]
pub struct Request {
    pub method: Vec<u8>,
    pub scheme: Vec<u8>,
    pub path: Vec<u8>,
    pub authority: Option<Vec<u8>>,
    pub headers: Vec<HeaderField>,
}

/// A response the application hands back for one stream.
#[derive(Clone, PartialEq, Eq, Debug)]
pub struct Response {
    pub status: u16,
    pub headers: Vec<HeaderField>,
}

/// What the application-side encoder enqueues on the event bridge.
#[derive(Clone, PartialEq, Eq, Debug)]
pub enum H2EventPayload {
    Headers(Response),
    BodyChunk(Vec<u8>),
    BodyEnd,
}

/// An event addressed to one stream.
#[derive(Clone, PartialEq, Eq, Debug)]
pub struct H2Event {
    pub stream_id: u32,
    pub payload: H2EventPayload,
}

/// A frame ready for the wire: header fields plus the payload whose length
/// the header's `len` already carries.
#[derive(Clone, PartialEq, Eq, Debug)]
pub struct OutFrame {
    pub frame: Frame,
    pub payload: Vec<u8>,
}

impl OutFrame {
    /// The header is serializable and its length field matches the payload.
    pub open spec fn wf(self) -> bool {
        &&& self.frame.wf()
        &&& self.frame.len == self.payload@.len()
    }
}

/// What the processor asks its caller to do, in order.
#[derive(Clone, PartialEq, Eq, Debug)]
pub enum Action {
    /// Serialize this frame onto the wire.
    WriteFrame(OutFrame),
    /// Hand a body chunk to the stream's reader; `end_stream` says the
    /// body is complete after it.
    DeliverData { stream_id: u32, bytes: Vec<u8>, end_stream: bool },
    /// Hand trailers to the stream's reader; the body is complete.
    DeliverTrailers { stream_id: u32, trailers: Vec<HeaderField> },
    /// Tell the stream's reader the peer reset the stream.
    ResetIncoming { stream_id: u32, error: H2StreamError },
    /// Spawn the application handler for a freshly accepted stream.
    StartRequest { stream_id: u32, request: Request, end_stream: bool },
}

impl Action {
    /// Whether this action puts a frame on the wire.
    pub open spec fn is_write(self) -> bool {
        self is WriteFrame
    }
}

} // verus!
