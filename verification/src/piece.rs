//! Zero-copy slices over pooled buffers and the pieces of a vectored
//! write. A `Roll` is an immutable window into a pooled slot; splitting
//! one yields two windows over the same slot whose bytes concatenate to
//! the whole. A `Piece` is any byte run with a stable address -
//! static, owned, pooled, or a canonical header name - and a `PieceList`
//! is the ordered sequence submitted as one vectored write.

use vstd::prelude::*;
use crate::bufpool::{Buf, BufPool};

verus! {

/// An immutable view into a pooled buffer: a window of `len` bytes
/// starting `off` into the handle's range.
pub struct Roll {
    pub buf: Buf,
    pub off: u16,
    pub len: u16,
}

impl Roll {
    /// The window stays within its handle, which is live.
    pub open spec fn wf(self, pool: BufPool) -> bool {
        &&& self.buf.wf(pool)
        &&& self.off + self.len <= self.buf.len
    }

    /// The bytes this roll covers.
    pub open spec fn bytes(self, pool: BufPool) -> Seq<u8> {
        self.buf.bytes(pool).subrange(self.off as int, self.off as int + self.len as int)
    }

    /// A roll over a frozen buffer's whole range.
    pub fn of_buf(buf: Buf) -> (r: Roll)
        ensures
            r.buf == buf,
            r.off == 0,
            r.len == buf.len,
    {
        let len = buf.len();
        Roll { buf, off: 0, len: len as u16 }
    }

    pub fn len(&self) -> (r: usize)
        ensures
            r == self.len,
    {
        self.len as usize
    }

    pub fn is_empty(&self) -> (r: bool)
        ensures
            r == (self.len == 0),
    {
        self.len == 0
    }

    /// Splits at `n` into two rolls over the same slot; their bytes
    /// concatenate to this roll's bytes, and the slot gains one
    /// reference so each part can be released on its own.
    pub fn split_at(self, pool: &mut BufPool, n: u16) -> (r: (Roll, Roll))
        requires
            old(pool).wf(),
            self.wf(*old(pool)),
            n <= self.len,
            old(pool).rc(self.buf.index) < u16::MAX,
        ensures
            final(pool).wf(),
            final(pool).buf_size == old(pool).buf_size,
            final(pool).num_buf == old(pool).num_buf,
            final(pool).rc(self.buf.index) == old(pool).rc(self.buf.index) + 1,
            forall|j: u32|
                j < final(pool).num_buf ==> final(pool).slot_bytes(j) == old(pool).slot_bytes(j),
            r.0.wf(*final(pool)),
            r.1.wf(*final(pool)),
            r.0.bytes(*final(pool)) == self.bytes(*old(pool)).take(n as int),
            r.1.bytes(*final(pool)) == self.bytes(*old(pool)).skip(n as int),
            r.0.bytes(*final(pool)) + r.1.bytes(*final(pool)) == self.bytes(*old(pool)),
    {
        proof {
            crate::bufpool::lemma_slot_in_region(*pool, self.buf.index);
        }
        let second = self.buf.clone_in(pool);
        let left = Roll { buf: self.buf, off: self.off, len: n };
        let right = Roll { buf: second, off: self.off + n, len: self.len - n };
        proof {
            crate::bufpool::lemma_slot_in_region(*pool, self.buf.index);
            assert(left.bytes(*pool) =~= self.bytes(*pool).take(n as int));
            assert(right.bytes(*pool) =~= self.bytes(*pool).skip(n as int));
            assert(self.bytes(*pool).take(n as int) + self.bytes(*pool).skip(n as int)
                =~= self.bytes(*pool));
            assert(self.bytes(*pool) =~= self.bytes(*old(pool)));
        }
        (left, right)
    }

    /// The bytes, copied out.
    pub fn to_vec(&self, pool: &BufPool) -> (r: Vec<u8>)
        requires
            pool.wf(),
            self.wf(*pool),
        ensures
            r@ == self.bytes(*pool),
    {
        let r = self.buf.read_at(pool, self.off as usize, self.len as usize);
        proof {
            assert(r@ =~= self.bytes(*pool));
        }
        r
    }

    /// Drops this roll's reference to its slot.
    pub fn release(self, pool: &mut BufPool)
        requires
            old(pool).wf(),
            self.wf(*old(pool)),
            old(pool).free_len() < u32::MAX,
        ensures
            final(pool).wf(),
            final(pool).buf_size == old(pool).buf_size,
            final(pool).num_buf == old(pool).num_buf,
            final(pool).rc(self.buf.index) == old(pool).rc(self.buf.index) - 1,
            final(pool).free_len() == old(pool).free_len() + (
            if old(pool).rc(self.buf.index) == 1 {
                1int
            } else {
                0int
            }),
    {
        self.buf.release(pool);
    }
}

/// A byte run with a stable address, fit for a vectored write: borrowed
/// static data, owned bytes, a pooled roll, or a canonical (lowercase)
/// header name.
pub enum Piece {
    Static(&'static [u8]),
    Owned(Vec<u8>),
    Roll(Roll),
    HeaderName(Vec<u8>),
}

impl Piece {
    /// A piece's pooled part stays within its slot.
    pub open spec fn wf(self, pool: BufPool) -> bool {
        match self {
            Piece::Roll(r) => r.wf(pool),
            _ => true,
        }
    }

    /// The bytes a piece stands for.
    pub open spec fn bytes(self, pool: BufPool) -> Seq<u8> {
        match self {
            Piece::Static(s) => s@,
            Piece::Owned(v) => v@,
            Piece::Roll(r) => r.bytes(pool),
            Piece::HeaderName(n) => n@,
        }
    }

    pub fn len(&self, pool: &BufPool) -> (r: usize)
        requires
            pool.wf(),
            self.wf(*pool),
        ensures
            r == self.bytes(*pool).len(),
    {
        match self {
            Piece::Static(s) => s.len(),
            Piece::Owned(v) => v.len(),
            Piece::Roll(r) => {
                proof {
                    if pool.inner is Some {
                        crate::bufpool::lemma_slot_in_region(*pool, r.buf.index);
                    }
                }
                r.len()
            },
            Piece::HeaderName(n) => n.len(),
        }
    }

    pub fn is_empty(&self, pool: &BufPool) -> (r: bool)
        requires
            pool.wf(),
            self.wf(*pool),
        ensures
            r == (self.bytes(*pool).len() == 0),
    {
        self.len(pool) == 0
    }

    /// The bytes, copied out into one owned buffer.
    pub fn to_vec(&self, pool: &BufPool) -> (r: Vec<u8>)
        requires
            pool.wf(),
            self.wf(*pool),
        ensures
            r@ == self.bytes(*pool),
    {
        match self {
            Piece::Static(s) => vstd::slice::slice_to_vec(s),
            Piece::Owned(v) => v.clone(),
            Piece::Roll(r) => r.to_vec(pool),
            Piece::HeaderName(n) => n.clone(),
        }
    }
}

/// Total byte length of the pieces from index `i` on.
pub open spec fn spec_pieces_len(ps: Seq<Piece>, pool: BufPool, i: int) -> int
    decreases ps.len() - i,
{
    if i < 0 || i >= ps.len() {
        0
    } else {
        ps[i].bytes(pool).len() + spec_pieces_len(ps, pool, i + 1)
    }
}

proof fn lemma_pieces_len_nonneg(ps: Seq<Piece>, pool: BufPool, i: int)
    ensures
        spec_pieces_len(ps, pool, i) >= 0,
    decreases ps.len() - i,
{
    if 0 <= i < ps.len() {
        lemma_pieces_len_nonneg(ps, pool, i + 1);
    }
}

/// An ordered run of pieces submitted as a single vectored write.
pub struct PieceList {
    pub pieces: Vec<Piece>,
}

impl PieceList {
    pub open spec fn wf(self, pool: BufPool) -> bool {
        forall|k: int| 0 <= k < self.pieces@.len() ==> (#[trigger] self.pieces@[k]).wf(pool)
    }

    pub fn new() -> (r: PieceList)
        ensures
            r.pieces@.len() == 0,
    {
        PieceList { pieces: Vec::new() }
    }

    /// Appends one piece.
    pub fn push(&mut self, chunk: Piece)
        ensures
            final(self).pieces@ == old(self).pieces@.push(chunk),
    {
        self.pieces.push(chunk);
    }

    /// Appends one piece, by value, for chained building.
    pub fn with(self, chunk: Piece) -> (r: PieceList)
        ensures
            r.pieces@ == self.pieces@.push(chunk),
    {
        let mut r = self;
        r.pieces.push(chunk);
        r
    }

    /// Total byte length over all pieces.
    pub fn len(&self, pool: &BufPool) -> (r: usize)
        requires
            pool.wf(),
            self.wf(*pool),
            spec_pieces_len(self.pieces@, *pool, 0) <= usize::MAX,
        ensures
            r == spec_pieces_len(self.pieces@, *pool, 0),
    {
        let ghost ps = self.pieces@;
        let n = self.pieces.len();
        let mut total: usize = 0;
        let mut i: usize = 0;
        while i < n
            invariant
                0 <= i <= n,
                ps == self.pieces@,
                ps.len() == n,
                pool.wf(),
                self.wf(*pool),
                spec_pieces_len(ps, *pool, 0) <= usize::MAX,
                total + spec_pieces_len(ps, *pool, i as int) == spec_pieces_len(ps, *pool, 0),
            decreases n - i,
        {
            proof {
                lemma_pieces_len_nonneg(ps, *pool, i as int + 1);
            }
            total = total + self.pieces[i].len(pool);
            i += 1;
        }
        total
    }

    pub fn num_pieces(&self) -> (r: usize)
        ensures
            r == self.pieces@.len(),
    {
        self.pieces.len()
    }

    /// Empty when it holds no bytes at all.
    pub fn is_empty(&self, pool: &BufPool) -> (r: bool)
        requires
            pool.wf(),
            self.wf(*pool),
            spec_pieces_len(self.pieces@, *pool, 0) <= usize::MAX,
        ensures
            r == (spec_pieces_len(self.pieces@, *pool, 0) == 0),
    {
        self.pieces.len() == 0 || self.len(pool) == 0
    }

    pub fn clear(&mut self)
        ensures
            final(self).pieces@.len() == 0,
    {
        self.pieces.clear();
    }

    pub fn into_vec(self) -> (r: Vec<Piece>)
        ensures
            r == self.pieces,
    {
        self.pieces
    }
}

} // verus!
