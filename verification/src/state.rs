//! Per-connection state: both settings records, the stream table keyed by
//! stream id, the last accepted stream id, and whether a GOAWAY was
//! received. The well-formedness predicate carries the protocol
//! invariants: stream ids are odd, no larger than the last accepted id,
//! never resting in the `Transition` sentinel, and the table never grows
//! past the advertised concurrent-stream cap.

use std::collections::HashMap;
use vstd::prelude::*;
use crate::settings::Settings;
use crate::types::StreamState;

verus! {

broadcast use vstd::std_specs::hash::group_hash_axioms;

/// State the processor owns for one connection.
pub struct ConnState {
    pub self_settings: Settings,
    pub peer_settings: Settings,
    pub streams: HashMap<u32, StreamState>,
    pub last_stream_id: u32,
    pub goaway_recv: bool,
}

impl ConnState {
    /// The stream table never exceeds the advertised cap.
    pub open spec fn streams_within_limit(self) -> bool {
        self.streams@.len() <= self.self_settings.max_concurrent_streams
    }

    /// Every tracked stream is client-initiated (odd id), was accepted no
    /// later than `last_stream_id`, and never rests in `Transition`.
    pub open spec fn stream_ids_wf(self) -> bool {
        forall|k: u32| #[trigger]
            self.streams@.contains_key(k) ==> k % 2 == 1 && 0 < k <= self.last_stream_id
                && self.streams@[k] != StreamState::Transition
    }

    pub open spec fn wf(self) -> bool {
        &&& self.stream_ids_wf()
        &&& self.streams_within_limit()
        &&& self.streams@.dom().finite()
        &&& self.last_stream_id < 0x8000_0000
        &&& self.self_settings.wf()
        &&& self.peer_settings.wf()
    }

    /// Fresh state: default settings with this server's stream cap, an
    /// empty stream table, no stream accepted yet.
    pub fn new(max_streams: u32) -> (r: ConnState)
        ensures
            r.wf(),
            r.streams@ == Map::<u32, StreamState>::empty(),
            r.last_stream_id == 0,
            r.self_settings == (Settings {
                max_concurrent_streams: max_streams,
                ..Settings::spec_default()
            }),
            r.peer_settings == Settings::spec_default(),
            !r.goaway_recv,
    {
        let r = ConnState {
            self_settings: Settings { max_concurrent_streams: max_streams, ..Settings::default() },
            peer_settings: Settings::default(),
            streams: HashMap::new(),
            last_stream_id: 0,
            goaway_recv: false,
        };
        proof {
            assert(r.streams@.dom() =~= Set::<u32>::empty());
        }
        r
    }

    /// The state of one stream, if it is in the table.
    pub fn stream_state(&self, stream_id: u32) -> (r: Option<StreamState>)
        ensures
            r == if self.streams@.contains_key(stream_id) {
                Some(self.streams@[stream_id])
            } else {
                None::<StreamState>
            },
    {
        match self.streams.get(&stream_id) {
            Some(ss) => Some(*ss),
            None => None,
        }
    }

    /// Whether the table tracks this stream.
    pub fn contains_stream(&self, stream_id: u32) -> (r: bool)
        ensures
            r == self.streams@.contains_key(stream_id),
    {
        self.streams.contains_key(&stream_id)
    }

    /// How many streams the table tracks.
    pub fn stream_count(&self) -> (r: usize)
        ensures
            r == self.streams@.len(),
    {
        self.streams.len()
    }

    /// Puts one stream's state, replacing any previous entry.
    pub fn insert_stream(&mut self, stream_id: u32, st: StreamState)
        ensures
            final(self).streams@ == old(self).streams@.insert(stream_id, st),
            final(self).self_settings == old(self).self_settings,
            final(self).peer_settings == old(self).peer_settings,
            final(self).last_stream_id == old(self).last_stream_id,
            final(self).goaway_recv == old(self).goaway_recv,
    {
        self.streams.insert(stream_id, st);
    }

    /// Drops one stream from the table; returns the state it had.
    pub fn remove_stream(&mut self, stream_id: u32) -> (r: Option<StreamState>)
        ensures
            final(self).streams@ == old(self).streams@.remove(stream_id),
            r == if old(self).streams@.contains_key(stream_id) {
                Some(old(self).streams@[stream_id])
            } else {
                None::<StreamState>
            },
            final(self).self_settings == old(self).self_settings,
            final(self).peer_settings == old(self).peer_settings,
            final(self).last_stream_id == old(self).last_stream_id,
            final(self).goaway_recv == old(self).goaway_recv,
    {
        self.streams.remove(&stream_id)
    }
}

} // verus!
