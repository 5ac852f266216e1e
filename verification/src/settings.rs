//! The SETTINGS payload codec: six known parameters as 6-byte
//! `{identifier:16, value:32}` entries, unknown identifiers ignored,
//! values validated as the protocol demands. Encoding then decoding gives
//! the settings back, whatever they were applied over.

use vstd::prelude::*;
use crate::frame::{spec_be16, spec_be32, encode_be32};

verus! {

/// Connection settings, one field per known SETTINGS identifier.
#[derive(Clone, Copy, PartialEq, Eq, Structural, Debug)]
pub struct Settings {
    pub header_table_size: u32,
    pub enable_push: bool,
    pub max_concurrent_streams: u32,
    pub initial_window_size: u32,
    pub max_frame_size: u32,
    pub max_header_list_size: u32,
}

pub const SETTING_HEADER_TABLE_SIZE: u16 = 0x1;
pub const SETTING_ENABLE_PUSH: u16 = 0x2;
pub const SETTING_MAX_CONCURRENT_STREAMS: u16 = 0x3;
pub const SETTING_INITIAL_WINDOW_SIZE: u16 = 0x4;
pub const SETTING_MAX_FRAME_SIZE: u16 = 0x5;
pub const SETTING_MAX_HEADER_LIST_SIZE: u16 = 0x6;

/// Default max_concurrent_streams advertised by this server.
pub const DEFAULT_MAX_STREAMS: u32 = 32;

impl Settings {
    /// Protocol defaults, with this server's stream cap in place of the
    /// unbounded default.
    pub open spec fn spec_default() -> Settings {
        Settings {
            header_table_size: 4096,
            enable_push: true,
            max_concurrent_streams: 32,
            initial_window_size: 65535,
            max_frame_size: 16384,
            max_header_list_size: 0xffff_ffff,
        }
    }

    /// Value bounds the codec maintains: a window fits 31 bits and the
    /// frame size stays in the protocol's allowed band.
    pub open spec fn wf(self) -> bool {
        &&& self.initial_window_size < 0x8000_0000
        &&& 16384 <= self.max_frame_size < 0x1000000
    }
}

impl Default for Settings {
    fn default() -> (r: Settings)
        ensures
            r == Settings::spec_default(),
            r.wf(),
    {
        Settings {
            header_table_size: 4096,
            enable_push: true,
            max_concurrent_streams: 32,
            initial_window_size: 65535,
            max_frame_size: 16384,
            max_header_list_size: 0xffff_ffff,
        }
    }
}

/// One settings entry applied over current settings: known identifiers
/// replace their field after validation, unknown ones change nothing,
/// and an invalid value refuses the whole payload.
pub open spec fn spec_apply_setting(s: Settings, id: int, val: u32) -> Option<Settings> {
    if id == SETTING_HEADER_TABLE_SIZE {
        Some(Settings { header_table_size: val, ..s })
    } else if id == SETTING_ENABLE_PUSH {
        if val == 0 {
            Some(Settings { enable_push: false, ..s })
        } else if val == 1 {
            Some(Settings { enable_push: true, ..s })
        } else {
            None
        }
    } else if id == SETTING_MAX_CONCURRENT_STREAMS {
        Some(Settings { max_concurrent_streams: val, ..s })
    } else if id == SETTING_INITIAL_WINDOW_SIZE {
        if val < 0x8000_0000 {
            Some(Settings { initial_window_size: val, ..s })
        } else {
            None
        }
    } else if id == SETTING_MAX_FRAME_SIZE {
        if 16384 <= val < 0x1000000 {
            Some(Settings { max_frame_size: val, ..s })
        } else {
            None
        }
    } else if id == SETTING_MAX_HEADER_LIST_SIZE {
        Some(Settings { max_header_list_size: val, ..s })
    } else {
        Some(s)
    }
}

/// Settings after applying the entries of `b` from offset `i` over `s`;
/// `None` on a ragged length or an invalid value.
pub open spec fn spec_parse_settings_from(b: Seq<u8>, i: int, s: Settings) -> Option<Settings>
    decreases b.len() - i,
{
    if i == b.len() {
        Some(s)
    } else if i + 6 <= b.len() {
        match spec_apply_setting(s, spec_be16(b, i), spec_be32(b, i + 2) as u32) {
            Some(s2) => spec_parse_settings_from(b, i + 6, s2),
            None => None,
        }
    } else {
        None
    }
}

/// Settings denoted by a whole SETTINGS payload, applied over `base`.
pub open spec fn spec_parse_settings(b: Seq<u8>, base: Settings) -> Option<Settings> {
    spec_parse_settings_from(b, 0, base)
}

/// Applies one identifier/value pair over `s`.
pub fn apply_setting(s: &Settings, id: u16, val: u32) -> (r: Option<Settings>)
    ensures
        r == spec_apply_setting(*s, id as int, val),
        s.wf() ==> (r matches Some(s2) ==> s2.wf()),
{
    if id == SETTING_HEADER_TABLE_SIZE {
        Some(Settings { header_table_size: val, ..*s })
    } else if id == SETTING_ENABLE_PUSH {
        if val == 0 {
            Some(Settings { enable_push: false, ..*s })
        } else if val == 1 {
            Some(Settings { enable_push: true, ..*s })
        } else {
            None
        }
    } else if id == SETTING_MAX_CONCURRENT_STREAMS {
        Some(Settings { max_concurrent_streams: val, ..*s })
    } else if id == SETTING_INITIAL_WINDOW_SIZE {
        if val < 0x8000_0000 {
            Some(Settings { initial_window_size: val, ..*s })
        } else {
            None
        }
    } else if id == SETTING_MAX_FRAME_SIZE {
        if 16384 <= val && val < 0x1000000 {
            Some(Settings { max_frame_size: val, ..*s })
        } else {
            None
        }
    } else if id == SETTING_MAX_HEADER_LIST_SIZE {
        Some(Settings { max_header_list_size: val, ..*s })
    } else {
        Some(*s)
    }
}

/// Parses a SETTINGS payload over the settings currently in force.
pub fn parse_settings(b: &[u8], base: &Settings) -> (r: Option<Settings>)
    ensures
        r == spec_parse_settings(b@, *base),
        base.wf() ==> (r matches Some(s2) ==> s2.wf()),
{
    let mut i: usize = 0;
    let mut cur: Settings = *base;
    loop
        invariant
            0 <= i <= b@.len(),
            base.wf() ==> cur.wf(),
            spec_parse_settings(b@, *base) == spec_parse_settings_from(b@, i as int, cur),
        decreases b@.len() - i,
    {
        if i == b.len() {
            return Some(cur);
        }
        if b.len() - i < 6 {
            return None;
        }
        let b0 = *vstd::slice::slice_index_get(b, i);
        let b1 = *vstd::slice::slice_index_get(b, i + 1);
        let b2 = *vstd::slice::slice_index_get(b, i + 2);
        let b3 = *vstd::slice::slice_index_get(b, i + 3);
        let b4 = *vstd::slice::slice_index_get(b, i + 4);
        let b5 = *vstd::slice::slice_index_get(b, i + 5);
        let id: u16 = (b0 as u16) * 0x100 + (b1 as u16);
        let val: u32 = (b2 as u32) * 0x1000000 + (b3 as u32) * 0x10000 + (b4 as u32) * 0x100 + (
        b5 as u32);
        match apply_setting(&cur, id, val) {
            Some(next) => {
                cur = next;
                i += 6;
            },
            None => {
                return None;
            },
        }
    }
}

/// Appends one 6-byte settings entry.
fn push_setting(out: &mut Vec<u8>, id: u16, val: u32)
    ensures
        final(out)@.len() == old(out)@.len() + 6,
        final(out)@.subrange(0, old(out)@.len() as int) =~= old(out)@,
        spec_be16(final(out)@, old(out)@.len() as int) == id,
        spec_be32(final(out)@, old(out)@.len() as int + 2) == val,
{
    let h0 = (id >> 8) as u8;
    let h1 = id as u8;
    assert((h0 as u16) * 0x100 + (h1 as u16) == id) by (bit_vector)
        requires
            h0 == (id >> 8) as u8,
            h1 == id as u8,
    ;
    let ghost n = old(out)@.len() as int;
    out.push(h0);
    out.push(h1);
    let ghost mid = out@;
    encode_be32(val, out);
    proof {
        assert(out@.subrange(0, n + 2) =~= mid.subrange(0, n + 2));
        assert(out@[n] == mid[n]);
        assert(out@[n + 1] == mid[n + 1]);
        assert(out@.subrange(0, n) =~= old(out)@);
    }
}

/// Serializes all six known settings. Parsing the result over any base
/// settings returns exactly these settings: the codec's round trip.
pub fn encode_settings(s: &Settings) -> (r: Vec<u8>)
    requires
        s.wf(),
    ensures
        r@.len() == 36,
        forall|base: Settings| #[trigger] spec_parse_settings(r@, base) == Some(*s),
{
    let mut r: Vec<u8> = Vec::new();
    push_setting(&mut r, SETTING_HEADER_TABLE_SIZE, s.header_table_size);
    push_setting(&mut r, SETTING_ENABLE_PUSH, if s.enable_push { 1 } else { 0 });
    push_setting(&mut r, SETTING_MAX_CONCURRENT_STREAMS, s.max_concurrent_streams);
    push_setting(&mut r, SETTING_INITIAL_WINDOW_SIZE, s.initial_window_size);
    push_setting(&mut r, SETTING_MAX_FRAME_SIZE, s.max_frame_size);
    push_setting(&mut r, SETTING_MAX_HEADER_LIST_SIZE, s.max_header_list_size);
    proof {
        assert forall|base: Settings| #[trigger] spec_parse_settings(r@, base) == Some(*s) by {
            let s1 = spec_apply_setting(base, SETTING_HEADER_TABLE_SIZE as int,
                s.header_table_size).unwrap();
            let s2 = spec_apply_setting(s1, SETTING_ENABLE_PUSH as int,
                if s.enable_push { 1u32 } else { 0u32 }).unwrap();
            let s3 = spec_apply_setting(s2, SETTING_MAX_CONCURRENT_STREAMS as int,
                s.max_concurrent_streams).unwrap();
            let s4 = spec_apply_setting(s3, SETTING_INITIAL_WINDOW_SIZE as int,
                s.initial_window_size).unwrap();
            let s5 = spec_apply_setting(s4, SETTING_MAX_FRAME_SIZE as int,
                s.max_frame_size).unwrap();
            let s6 = spec_apply_setting(s5, SETTING_MAX_HEADER_LIST_SIZE as int,
                s.max_header_list_size).unwrap();
            assert(s6 == *s);
            assert(spec_parse_settings_from(r@, 36, s6) == Some(s6));
            assert(spec_parse_settings_from(r@, 30, s5) == Some(s6));
            assert(spec_parse_settings_from(r@, 24, s4) == Some(s6));
            assert(spec_parse_settings_from(r@, 18, s3) == Some(s6));
            assert(spec_parse_settings_from(r@, 12, s2) == Some(s6));
            assert(spec_parse_settings_from(r@, 6, s1) == Some(s6));
            assert(spec_parse_settings_from(r@, 0, base) == Some(s6));
        }
    }
    r
}

} // verus!
