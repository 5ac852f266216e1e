//! The bridge to the HPACK codec of the `hpack` crate. The decoder and
//! encoder keep a dynamic table between blocks, so nothing useful can be
//! promised about the bytes they produce; every function that consumes a
//! decoded block is verified for every value the decoder could hand back.
//!
//! One path of the codec is not total: on a dynamic-table-size-update
//! field whose prefix integer is truncated or overlong, the decoder
//! unwraps the failed integer decode instead of returning its error.
//! The block's top-level field structure (tags, prefix integers, string
//! lengths) is a pure function of the bytes, independent of the dynamic
//! table, so a verified scanner walks it first and the decoder is only
//! ever called on blocks the scanner proved free of that path.

use vstd::prelude::*;
use crate::types::HeaderField;

verus! {

/// hpack's streaming decoder; opaque here, its dynamic table included.
#[verifier::external_type_specification]
#[verifier::external_body]
pub struct ExDecoder<'a>(hpack::Decoder<'a>);

/// hpack's encoder; opaque here, its dynamic table included.
#[verifier::external_type_specification]
#[verifier::external_body]
pub struct ExEncoder<'a>(hpack::Encoder<'a>);

/// hpack's decode failure; mapped to this crate's compression error.
#[verifier::external_type_specification]
#[verifier::external_body]
pub struct ExDecoderError(hpack::decoder::DecoderError);


/// How many octets the prefix integer starting at `i` occupies under the
/// codec's rules: a prefix value below the mask ends in one octet; a full
/// prefix is followed by up to four continuation octets, of which the
/// last must have its top bit clear; `None` where the integer is
/// truncated or overlong. (`x % 2^k` is the codec's `x & (2^k - 1)`.)
pub open spec fn spec_int_octets(b: Seq<u8>, i: int, mask: u8) -> Option<int> {
    if i < 0 || i >= b.len() {
        None
    } else if b[i] as int % (mask + 1) != mask {
        Some(1)
    } else if i + 1 >= b.len() {
        None
    } else if b[i + 1] < 0x80 {
        Some(2)
    } else if i + 2 >= b.len() {
        None
    } else if b[i + 2] < 0x80 {
        Some(3)
    } else if i + 3 >= b.len() {
        None
    } else if b[i + 3] < 0x80 {
        Some(4)
    } else if i + 4 >= b.len() {
        None
    } else if b[i + 4] < 0x80 {
        Some(5)
    } else {
        None
    }
}

/// The integer's value: the prefix, plus each continuation octet's low
/// seven bits at successive 128-powers.
pub open spec fn spec_int_value(b: Seq<u8>, i: int, mask: u8) -> int
    recommends
        spec_int_octets(b, i, mask) is Some,
{
    if b[i] as int % (mask + 1) != mask {
        (b[i] as int % (mask + 1)) as int
    } else {
        mask + b[i + 1] % 0x80 + (if b[i + 1] < 0x80 {
            0int
        } else {
            (b[i + 2] % 0x80) * 0x80 + (if b[i + 2] < 0x80 {
                0int
            } else {
                (b[i + 3] % 0x80) * 0x4000 + (if b[i + 3] < 0x80 {
                    0int
                } else {
                    (b[i + 4] % 0x80) * 0x200000
                })
            })
        })
    }
}

/// Octets of the string starting at `i`: its length integer, then that
/// many octets; `None` where the codec would stop with its own error.
pub open spec fn spec_str_octets(b: Seq<u8>, i: int) -> Option<int> {
    match spec_int_octets(b, i, 0x7f) {
        None => None,
        Some(c) => if i + c + spec_int_value(b, i, 0x7f) > b.len() {
            None
        } else {
            Some(c + spec_int_value(b, i, 0x7f))
        },
    }
}

/// Octets of a literal field at `i` with the given name-index prefix
/// mask: the index integer, a name string when the index is zero, and
/// the value string; `None` where the codec would stop with its own
/// error.
pub open spec fn spec_literal_octets(b: Seq<u8>, i: int, mask: u8) -> Option<int> {
    match spec_int_octets(b, i, mask) {
        None => None,
        Some(c) => if b[i] as int % (mask + 1) == 0 {
            match spec_str_octets(b, i + c) {
                None => None,
                Some(c2) => match spec_str_octets(b, i + c + c2) {
                    None => None,
                    Some(c3) => Some(c + c2 + c3),
                },
            }
        } else {
            match spec_str_octets(b, i + c) {
                None => None,
                Some(c2) => Some(c + c2),
            }
        },
    }
}

proof fn lemma_int_octets_bounds(b: Seq<u8>, i: int, mask: u8)
    requires
        spec_int_octets(b, i, mask) is Some,
    ensures
        1 <= spec_int_octets(b, i, mask).unwrap() <= 5,
        i + spec_int_octets(b, i, mask).unwrap() <= b.len(),
        0 <= i < b.len(),
{
}

proof fn lemma_str_octets_bounds(b: Seq<u8>, i: int)
    requires
        spec_str_octets(b, i) is Some,
    ensures
        1 <= spec_str_octets(b, i).unwrap(),
        i + spec_str_octets(b, i).unwrap() <= b.len(),
        0 <= i,
{
    lemma_int_octets_bounds(b, i, 0x7f);
}

proof fn lemma_literal_octets_bounds(b: Seq<u8>, i: int, mask: u8)
    requires
        spec_literal_octets(b, i, mask) is Some,
    ensures
        1 <= spec_literal_octets(b, i, mask).unwrap(),
        i + spec_literal_octets(b, i, mask).unwrap() <= b.len(),
        0 <= i < b.len(),
{
    lemma_int_octets_bounds(b, i, mask);
    let c = spec_int_octets(b, i, mask).unwrap();
    if b[i] as int % (mask + 1) == 0 {
        lemma_str_octets_bounds(b, i + c);
        let c2 = spec_str_octets(b, i + c).unwrap();
        lemma_str_octets_bounds(b, i + c + c2);
    } else {
        lemma_str_octets_bounds(b, i + c);
    }
}

/// Whether the codec can walk this whole block without reaching its
/// size-update integer unwrap: every dynamic-table-size-update field
/// (tag `001xxxxx`) carries a well-formed prefix integer. A field the
/// codec refuses with its own error ends the walk early and is safe.
pub open spec fn spec_block_safe(b: Seq<u8>, i: int) -> bool
    decreases b.len() - i,
    via spec_block_safe_dec
{
    if i < 0 || i >= b.len() {
        true
    } else if b[i] >= 0x80 {
        // indexed field
        match spec_int_octets(b, i, 0x7f) {
            None => true,
            Some(c) => spec_block_safe(b, i + c),
        }
    } else if b[i] >= 0x40 {
        // literal with incremental indexing
        match spec_literal_octets(b, i, 0x3f) {
            None => true,
            Some(c) => spec_block_safe(b, i + c),
        }
    } else if b[i] >= 0x20 {
        // dynamic-table-size update: the one field whose bad integer the
        // codec does not survive
        match spec_int_octets(b, i, 0x1f) {
            None => false,
            Some(c) => spec_block_safe(b, i + c),
        }
    } else {
        // literal without indexing / never indexed: same shape
        match spec_literal_octets(b, i, 0x0f) {
            None => true,
            Some(c) => spec_block_safe(b, i + c),
        }
    }
}

#[via_fn]
proof fn spec_block_safe_dec(b: Seq<u8>, i: int) {
    if 0 <= i < b.len() {
        if spec_int_octets(b, i, 0x7f) is Some {
            lemma_int_octets_bounds(b, i, 0x7f);
        }
        if spec_int_octets(b, i, 0x1f) is Some {
            lemma_int_octets_bounds(b, i, 0x1f);
        }
        if spec_literal_octets(b, i, 0x3f) is Some {
            lemma_literal_octets_bounds(b, i, 0x3f);
        }
        if spec_literal_octets(b, i, 0x0f) is Some {
            lemma_literal_octets_bounds(b, i, 0x0f);
        }
    }
}

/// Octet count of the prefix integer at `i`, or `None` where the codec
/// would fail on it.
fn int_octets(b: &[u8], i: usize, mask: u8) -> (r: Option<usize>)
    requires
        i < b@.len(),
        mask < 0x80,
    ensures
        match r {
            Some(c) => spec_int_octets(b@, i as int, mask) == Some(c as int),
            None => spec_int_octets(b@, i as int, mask) is None,
        },
{
    let n = b.len();
    if *vstd::slice::slice_index_get(b, i) % (mask + 1) != mask {
        return Some(1);
    }
    if n - i <= 1 {
        return None;
    }
    if *vstd::slice::slice_index_get(b, i + 1) < 0x80 {
        return Some(2);
    }
    if n - i <= 2 {
        return None;
    }
    if *vstd::slice::slice_index_get(b, i + 2) < 0x80 {
        return Some(3);
    }
    if n - i <= 3 {
        return None;
    }
    if *vstd::slice::slice_index_get(b, i + 3) < 0x80 {
        return Some(4);
    }
    if n - i <= 4 {
        return None;
    }
    if *vstd::slice::slice_index_get(b, i + 4) < 0x80 {
        return Some(5);
    }
    None
}

/// The prefix integer's value; at most the mask plus four seven-bit
/// payloads, so it fits comfortably.
fn int_value(b: &[u8], i: usize, mask: u8) -> (r: usize)
    requires
        i < b@.len(),
        mask < 0x80,
        spec_int_octets(b@, i as int, mask) is Some,
    ensures
        r == spec_int_value(b@, i as int, mask),
{
    let n = b.len();
    proof {
        lemma_int_octets_bounds(b@, i as int, mask);
    }
    let b0 = *vstd::slice::slice_index_get(b, i) % (mask + 1);
    if b0 != mask {
        return b0 as usize;
    }
    proof {
        assert(i + 1 < n);
    }
    let mut v: usize = mask as usize;
    let o1 = *vstd::slice::slice_index_get(b, i + 1);
    v = v + (o1 % 0x80) as usize;
    if o1 < 0x80 {
        return v;
    }
    proof {
        assert(i + 2 < n);
    }
    let o2 = *vstd::slice::slice_index_get(b, i + 2);
    v = v + (o2 % 0x80) as usize * 0x80;
    if o2 < 0x80 {
        return v;
    }
    proof {
        assert(i + 3 < n);
    }
    let o3 = *vstd::slice::slice_index_get(b, i + 3);
    v = v + (o3 % 0x80) as usize * 0x4000;
    if o3 < 0x80 {
        return v;
    }
    proof {
        assert(i + 4 < n);
    }
    let o4 = *vstd::slice::slice_index_get(b, i + 4);
    v = v + (o4 % 0x80) as usize * 0x200000;
    v
}

/// Octet count of the string at `i`, or `None` where the codec would
/// fail on it.
fn str_octets(b: &[u8], i: usize) -> (r: Option<usize>)
    requires
        i <= b@.len(),
    ensures
        match r {
            Some(c) => spec_str_octets(b@, i as int) == Some(c as int) && 1 <= c && i + c
                <= b@.len(),
            None => spec_str_octets(b@, i as int) is None,
        },
{
    if i >= b.len() {
        return None;
    }
    let c = match int_octets(b, i, 0x7f) {
        None => {
            return None;
        },
        Some(c) => c,
    };
    proof {
        lemma_int_octets_bounds(b@, i as int, 0x7f);
    }
    let v = int_value(b, i, 0x7f);
    if v > b.len() - (i + c) {
        return None;
    }
    Some(c + v)
}

/// Octet count of a literal field at `i`, or `None` where the codec
/// would fail on it.
fn literal_octets(b: &[u8], i: usize, mask: u8) -> (r: Option<usize>)
    requires
        i < b@.len(),
        mask < 0x80,
    ensures
        match r {
            Some(c) => spec_literal_octets(b@, i as int, mask) == Some(c as int) && 1 <= c && i
                + c <= b@.len(),
            None => spec_literal_octets(b@, i as int, mask) is None,
        },
{
    let n = b.len();
    let c = match int_octets(b, i, mask) {
        None => {
            return None;
        },
        Some(c) => c,
    };
    proof {
        lemma_int_octets_bounds(b@, i as int, mask);
        assert(i + c <= n);
    }
    let mut j = i + c;
    if *vstd::slice::slice_index_get(b, i) % (mask + 1) == 0 {
        match str_octets(b, j) {
            None => {
                return None;
            },
            Some(c2) => {
                j = j + c2;
            },
        }
    }
    match str_octets(b, j) {
        None => None,
        Some(c3) => Some(j + c3 - i),
    }
}

/// Walks the block's top-level fields and says whether the codec can
/// decode it without hitting its size-update unwrap.
pub fn hpack_block_safe(b: &[u8]) -> (r: bool)
    ensures
        r == spec_block_safe(b@, 0),
{
    let n = b.len();
    let mut i: usize = 0;
    loop
        invariant
            i <= n,
            n == b@.len(),
            spec_block_safe(b@, 0) == spec_block_safe(b@, i as int),
        decreases n - i,
    {
        if i >= n {
            return true;
        }
        let b0 = *vstd::slice::slice_index_get(b, i);
        if b0 >= 0x80 {
            match int_octets(b, i, 0x7f) {
                None => {
                    return true;
                },
                Some(c) => {
                    proof {
                        lemma_int_octets_bounds(b@, i as int, 0x7f);
                    }
                    i = i + c;
                },
            }
        } else if b0 >= 0x40 {
            match literal_octets(b, i, 0x3f) {
                None => {
                    return true;
                },
                Some(c) => {
                    i = i + c;
                },
            }
        } else if b0 >= 0x20 {
            match int_octets(b, i, 0x1f) {
                None => {
                    return false;
                },
                Some(c) => {
                    proof {
                        lemma_int_octets_bounds(b@, i as int, 0x1f);
                    }
                    i = i + c;
                },
            }
        } else {
            match literal_octets(b, i, 0x0f) {
                None => {
                    return true;
                },
                Some(c) => {
                    i = i + c;
                },
            }
        }
    }
}

/// Relies on hpack::Decoder::new: a decoder with the protocol's static
/// table and default dynamic table size.
#[verifier::external_body]
pub(crate) fn decoder_new() -> hpack::Decoder<'static> {
    hpack::Decoder::new()
}

/// Relies on hpack::Decoder::set_max_table_size: caps the decoder's
/// dynamic table.
#[verifier::external_body]
pub(crate) fn decoder_set_max_table_size(d: &mut hpack::Decoder<'static>, n: usize) {
    d.set_max_table_size(n)
}

/// Relies on hpack::Decoder::decode: decodes one complete header block
/// into owned name/value pairs, or fails. The result depends on the
/// decoder's dynamic table, so nothing is stated of it; callers validate
/// whatever comes back. The decoder returns every malformed field as an
/// error except a size-update whose integer is bad - that one it
/// unwraps - so only blocks the scanner cleared are admitted.
#[verifier::external_body]
pub(crate) fn hpack_decode(d: &mut hpack::Decoder<'static>, buf: &[u8]) -> Result<
    Vec<(Vec<u8>, Vec<u8>)>,
    hpack::decoder::DecoderError,
>
    requires
        spec_block_safe(buf@, 0),
{
    d.decode(buf)
}

/// Relies on hpack::Encoder::new: an encoder with the protocol's static
/// table.
#[verifier::external_body]
pub(crate) fn encoder_new() -> hpack::Encoder<'static> {
    hpack::Encoder::new()
}

/// Relies on hpack::Encoder::encode: encodes the given fields as one
/// header block. The bytes depend on the encoder's dynamic table, so
/// nothing is stated of them.
#[verifier::external_body]
pub(crate) fn hpack_encode(e: &mut hpack::Encoder<'static>, fields: &Vec<HeaderField>) -> Vec<u8> {
    e.encode(fields.iter().map(|h| (h.name.as_slice(), h.value.as_slice())))
}

/// Decoded pairs as this crate's header fields, in order.
pub fn pairs_to_fields(pairs: Vec<(Vec<u8>, Vec<u8>)>) -> (r: Vec<HeaderField>)
    ensures
        r@.len() == pairs@.len(),
        forall|j: int|
            0 <= j < pairs@.len() ==> (#[trigger] r@[j]).name@ == pairs@[j].0@ && r@[j].value@
                == pairs@[j].1@,
{
    let mut r: Vec<HeaderField> = Vec::new();
    let n = pairs.len();
    let mut pairs = pairs;
    let ghost pv = pairs@;
    let mut i: usize = 0;
    while i < n
        invariant
            0 <= i <= n,
            pairs@ == pv.skip(i as int),
            pv.len() == n,
            r@.len() == i,
            forall|j: int|
                0 <= j < i ==> (#[trigger] r@[j]).name@ == pv[j].0@ && r@[j].value@ == pv[j].1@,
        decreases n - i,
    {
        let (name, value) = pairs.remove(0);
        proof {
            assert(pv.skip(i as int)[0] == pv[i as int]);
            assert(pv.skip(i as int).skip(1) =~= pv.skip(i as int + 1));
        }
        r.push(HeaderField { name, value });
        i += 1;
    }
    r
}

} // verus!
