//! A pool of fixed-size buffer slots carved out of one anonymous memory
//! mapping, so every handle's bytes keep a stable address for as long as
//! any handle to the slot exists. A slot is either on the free list or
//! has a positive reference count, never both; `BufMut` is the single
//! writable handle, `freeze` turns it into a shareable read-only `Buf`
//! without touching the count, and releasing the last handle returns the
//! slot to the free list.

use vstd::prelude::*;

verus! {

/// memmap2's writable anonymous mapping; opaque here, its bytes are
/// reached only through the region functions below.
#[verifier::external_type_specification]
#[verifier::external_body]
pub struct ExMmapMut(memmap2::MmapMut);

/// The I/O error an anonymous mapping can fail with.
#[verifier::external_type_specification]
#[verifier::external_body]
pub struct ExIoError(std::io::Error);

/// The bytes an anonymous mapping holds.
pub uninterp spec fn region_bytes(m: memmap2::MmapMut) -> Seq<u8>;

/// Relies on memmap2::MmapOptions::map_anon (with MmapOptions::len): an
/// anonymous writable mapping of exactly `len` bytes, or the system's
/// error.
#[verifier::external_body]
fn map_anon(len: usize) -> (r: Result<memmap2::MmapMut, std::io::Error>)
    ensures
        r matches Ok(m) ==> region_bytes(m).len() == len,
{
    memmap2::MmapOptions::new().len(len).map_anon()
}

/// Relies on MmapMut's DerefMut to `[u8]`: writes `src` at `off`,
/// leaving every other byte of the region as it was.
#[verifier::external_body]
fn region_write(m: &mut memmap2::MmapMut, off: usize, src: &[u8])
    requires
        off + src@.len() <= region_bytes(*old(m)).len(),
    ensures
        region_bytes(*final(m)).len() == region_bytes(*old(m)).len(),
        forall|x: int|
            0 <= x < region_bytes(*old(m)).len() ==> #[trigger] region_bytes(*final(m))[x] == (
            if off <= x < off + src@.len() {
                src@[x - off]
            } else {
                region_bytes(*old(m))[x]
            }),
{
    m[off..off + src.len()].copy_from_slice(src);
}

/// Relies on MmapMut's Deref to `[u8]`: reads `len` bytes at `off`.
#[verifier::external_body]
fn region_read(m: &memmap2::MmapMut, off: usize, len: usize) -> (r: Vec<u8>)
    requires
        off + len <= region_bytes(*m).len(),
    ensures
        r@ == region_bytes(*m).subrange(off as int, off as int + len as int),
{
    m[off..off + len].to_vec()
}

/// Why the pool cannot hand out a buffer.
#[derive(Debug)]
pub enum Error {
    Mmap(std::io::Error),
    OutOfMemory,
}

/// The mapped arena with its free list and per-slot reference counts;
/// present only once the first allocation has initialized the pool.
pub struct BufPoolInner {
    pub map: memmap2::MmapMut,
    pub free: Vec<u32>,
    pub ref_counts: Vec<u16>,
}

/// A pool of `num_buf` slots of `buf_size` bytes each, mapped lazily on
/// first use.
pub struct BufPool {
    pub buf_size: u16,
    pub num_buf: u32,
    pub inner: Option<BufPoolInner>,
}

impl BufPool {
    /// A slot is free or referenced, never both; free entries are unique
    /// and in range; the arena is exactly `num_buf * buf_size` bytes.
    pub open spec fn wf(self) -> bool {
        match self.inner {
            None => true,
            Some(i) => {
                &&& i.ref_counts@.len() == self.num_buf
                &&& region_bytes(i.map).len() == self.num_buf * self.buf_size
                &&& self.num_buf * self.buf_size <= usize::MAX
                &&& (forall|k: int|
                    0 <= k < i.free@.len() ==> (#[trigger] i.free@[k] < self.num_buf
                        && i.ref_counts@[i.free@[k] as int] == 0))
                &&& (forall|k1: int, k2: int|
                    0 <= k1 < k2 < i.free@.len() ==> #[trigger] i.free@[k1]
                        != #[trigger] i.free@[k2])
                &&& (forall|j: int|
                    0 <= j < self.num_buf && i.ref_counts@[j] == 0 ==> i.free@.contains(j as u32))
            },
        }
    }

    /// Whether a handle with this index is backed by a live slot.
    pub open spec fn live(self, index: u32) -> bool {
        &&& index < self.num_buf
        &&& self.inner matches Some(i) && i.ref_counts@[index as int] > 0
    }

    /// Reference count of a slot, 0 when the pool is uninitialized.
    pub open spec fn rc(self, index: u32) -> int {
        match self.inner {
            Some(i) => i.ref_counts@[index as int] as int,
            None => 0,
        }
    }

    /// Number of slots on the free list; meaningful once initialized.
    pub open spec fn free_len(self) -> int {
        match self.inner {
            Some(i) => i.free@.len() as int,
            None => 0,
        }
    }

    /// Bytes of one whole slot.
    pub open spec fn slot_bytes(self, index: u32) -> Seq<u8> {
        match self.inner {
            Some(i) => region_bytes(i.map).subrange(
                index * self.buf_size,
                index * self.buf_size + self.buf_size,
            ),
            None => Seq::empty(),
        }
    }

    /// An empty pool; the arena is mapped on first allocation.
    pub fn new_empty(buf_size: u16, num_buf: u32) -> (r: BufPool)
        ensures
            r.wf(),
            r.buf_size == buf_size,
            r.num_buf == num_buf,
            r.inner is None,
    {
        BufPool { buf_size, num_buf, inner: None }
    }

    /// Maps the arena and fills the free list, once.
    fn ensure_init(&mut self) -> (r: Result<(), Error>)
        requires
            old(self).wf(),
            old(self).num_buf * old(self).buf_size <= usize::MAX,
        ensures
            final(self).wf(),
            final(self).buf_size == old(self).buf_size,
            final(self).num_buf == old(self).num_buf,
            old(self).inner is Some ==> (r matches Ok(u) && *final(self) == *old(self)),
            (old(self).inner is None && r matches Ok(u)) ==> (final(self).inner matches Some(i)
                && i.free@.len() == final(self).num_buf && (forall|j: int|
                0 <= j < final(self).num_buf ==> i.ref_counts@[j] == 0)),
            r is Err ==> *final(self) == *old(self),
    {
        if self.inner.is_some() {
            return Ok(());
        }
        let len: usize = (self.num_buf as usize) * (self.buf_size as usize);
        let map = match map_anon(len) {
            Ok(m) => m,
            Err(e) => {
                return Err(Error::Mmap(e));
            },
        };
        let n = self.num_buf;
        let mut free: Vec<u32> = Vec::new();
        let mut ref_counts: Vec<u16> = Vec::new();
        let mut j: u32 = 0;
        while j < n
            invariant
                0 <= j <= n,
                free@.len() == j,
                ref_counts@.len() == j,
                forall|k: int| 0 <= k < j ==> #[trigger] free@[k] == k,
                forall|k: int| 0 <= k < j ==> #[trigger] ref_counts@[k] == 0,
            decreases n - j,
        {
            free.push(j);
            ref_counts.push(0);
            j += 1;
        }
        self.inner = Some(BufPoolInner { map, free, ref_counts });
        proof {
            let i = self.inner.unwrap();
            assert forall|j: int|
                0 <= j < self.num_buf && i.ref_counts@[j] == 0 implies i.free@.contains(
                j as u32,
            ) by {
                assert(i.free@[j] == j as u32);
            }
        }
        Ok(())
    }

    /// Pops a free slot and hands out the one writable handle to it,
    /// with the count at 1. Fails with `OutOfMemory` exactly when the
    /// free list is empty, and with the mapping's error only on a failed
    /// first-time initialization.
    pub fn allocate(&mut self) -> (r: Result<BufMut, Error>)
        requires
            old(self).wf(),
            old(self).num_buf * old(self).buf_size <= usize::MAX,
        ensures
            final(self).wf(),
            final(self).buf_size == old(self).buf_size,
            final(self).num_buf == old(self).num_buf,
            r matches Ok(b) ==> {
                &&& final(self).live(b.index)
                &&& final(self).rc(b.index) == 1
                &&& b.off == 0
                &&& b.len == final(self).buf_size
                &&& final(self).free_len() + 1 == (if old(self).inner is Some {
                    old(self).free_len()
                } else {
                    old(self).num_buf as int
                })
                &&& (forall|j: u32|
                    j < final(self).num_buf && j != b.index ==> final(self).rc(j) == (
                    if old(self).inner is Some {
                        old(self).rc(j)
                    } else {
                        0int
                    }))
            },
            (old(self).inner matches Some(i) && i.free@.len() == 0) ==> (r matches Err(e)
                && e is OutOfMemory && final(self).free_len() == old(self).free_len() && (forall|
                j: u32,
            | j < final(self).num_buf ==> final(self).rc(j) == old(self).rc(j))),
            (old(self).inner matches Some(i) && i.free@.len() > 0) ==> r is Ok,
    {
        match self.ensure_init() {
            Ok(()) => {},
            Err(e) => {
                return Err(e);
            },
        }
        let ghost pre = *self;
        let inner = match &mut self.inner {
            Some(i) => i,
            None => {
                proof {
                    assert(false);
                }
                return Err(Error::OutOfMemory);
            },
        };
        match inner.free.pop() {
            Some(index) => {
                inner.ref_counts[index as usize] = 1;
                proof {
                    let i = self.inner.unwrap();
                    let oldi = pre.inner.unwrap();
                    let oldf = oldi.free@;
                    assert(oldf[oldf.len() - 1] == index);
                    assert forall|k: int| 0 <= k < i.free@.len() implies (#[trigger] i.free@[k]
                        < self.num_buf && i.ref_counts@[i.free@[k] as int] == 0) by {
                        assert(oldf[k] == i.free@[k]);
                        assert(i.free@[k] != index);
                    }
                    assert forall|j: int|
                        0 <= j < self.num_buf && i.ref_counts@[j] == 0 implies i.free@.contains(
                        j as u32,
                    ) by {
                        assert(oldi.ref_counts@[j] == 0);
                        assert(oldf.contains(j as u32));
                        let w = choose|w: int| 0 <= w < oldf.len() && oldf[w] == j as u32;
                        assert(oldf[w] != index);
                        assert(w < oldf.len() - 1);
                        assert(i.free@[w] == j as u32);
                    }
                }
                Ok(BufMut { index, off: 0, len: self.buf_size })
            },
            None => Err(Error::OutOfMemory),
        }
    }

    /// Bumps a slot's reference count: one more read-only handle exists.
    fn inc(&mut self, index: u32)
        requires
            old(self).wf(),
            old(self).live(index),
            old(self).rc(index) < u16::MAX,
        ensures
            final(self).wf(),
            final(self).buf_size == old(self).buf_size,
            final(self).num_buf == old(self).num_buf,
            final(self).rc(index) == old(self).rc(index) + 1,
            final(self).free_len() == old(self).free_len(),
            forall|j: u32| j < final(self).num_buf && j != index ==> final(self).rc(j) == old(self).rc(j),
            forall|j: u32| j < final(self).num_buf ==> final(self).slot_bytes(j) == old(self).slot_bytes(j),
    {
        let inner = match &mut self.inner {
            Some(i) => i,
            None => {
                proof {
                    assert(false);
                }
                return ;
            },
        };
        let rc_now = inner.ref_counts[index as usize];
        inner.ref_counts[index as usize] = rc_now + 1;
        proof {
            let i = self.inner.unwrap();
            assert forall|k: int| 0 <= k < i.free@.len() implies (#[trigger] i.free@[k]
                < self.num_buf && i.ref_counts@[i.free@[k] as int] == 0) by {
                assert(old(self).inner.unwrap().free@[k] == i.free@[k]);
                assert(i.free@[k] != index);
            }
        }
    }

    /// Drops one reference; the slot returns to the free list when the
    /// last goes.
    fn dec(&mut self, index: u32)
        requires
            old(self).wf(),
            old(self).live(index),
            old(self).free_len() < u32::MAX,
        ensures
            final(self).wf(),
            final(self).buf_size == old(self).buf_size,
            final(self).num_buf == old(self).num_buf,
            final(self).rc(index) == old(self).rc(index) - 1,
            final(self).free_len() == old(self).free_len() + (if old(self).rc(index) == 1 {
                1int
            } else {
                0int
            }),
            forall|j: u32| j < final(self).num_buf && j != index ==> final(self).rc(j) == old(self).rc(j),
            forall|j: u32| j < final(self).num_buf ==> final(self).slot_bytes(j) == old(self).slot_bytes(j),
    {
        let inner = match &mut self.inner {
            Some(i) => i,
            None => {
                proof {
                    assert(false);
                }
                return ;
            },
        };
        let rc_now = inner.ref_counts[index as usize];
        inner.ref_counts[index as usize] = rc_now - 1;
        if rc_now == 1 {
            inner.free.push(index);
        }
        proof {
            let i = self.inner.unwrap();
            let oldf = old(self).inner.unwrap().free@;
            assert forall|k: int| 0 <= k < i.free@.len() implies (#[trigger] i.free@[k]
                < self.num_buf && i.ref_counts@[i.free@[k] as int] == 0) by {
                if k < oldf.len() {
                    assert(oldf[k] == i.free@[k]);
                    assert(i.free@[k] != index);
                }
            }
            assert forall|k1: int, k2: int| 0 <= k1 < k2 < i.free@.len() implies #[trigger] i
                .free@[k1] != #[trigger] i.free@[k2] by {
                if k2 == oldf.len() {
                    assert(i.free@[k2] == index);
                    assert(oldf[k1] == i.free@[k1]);
                }
            }
            assert forall|j: int|
                0 <= j < self.num_buf && i.ref_counts@[j] == 0 implies i.free@.contains(
                j as u32,
            ) by {
                if j != index {
                    assert(old(self).inner.unwrap().ref_counts@[j] == 0);
                    let w = choose|w: int|
                        0 <= w < oldf.len() && oldf[w] == j as u32;
                    assert(i.free@[w] == j as u32);
                } else {
                    assert(i.free@[i.free@.len() - 1] == index);
                }
            }
        }
    }

    /// How many slots are free; initializes the pool like the first
    /// allocation does.
    pub fn num_free(&mut self) -> (r: Result<usize, Error>)
        requires
            old(self).wf(),
            old(self).num_buf * old(self).buf_size <= usize::MAX,
        ensures
            final(self).wf(),
            final(self).buf_size == old(self).buf_size,
            final(self).num_buf == old(self).num_buf,
            old(self).inner is Some ==> (*final(self) == *old(self) && (r matches Ok(n) && n
                == old(self).free_len())),
            r is Ok ==> final(self).inner is Some,
            (old(self).inner is None && r is Ok) ==> (r matches Ok(n) && n == final(self).num_buf
                && n == final(self).free_len()),
    {
        match self.ensure_init() {
            Ok(()) => {},
            Err(e) => {
                return Err(e);
            },
        }
        match &self.inner {
            Some(i) => Ok(i.free.len()),
            None => {
                proof {
                    assert(false);
                }
                Err(Error::OutOfMemory)
            },
        }
    }
}

/// The single writable handle to a pooled slot.
pub struct BufMut {
    pub index: u32,
    pub off: u16,
    pub len: u16,
}

/// A read-only handle to a pooled slot; any number may share a slot.
pub struct Buf {
    pub index: u32,
    pub off: u16,
    pub len: u16,
}

impl BufMut {
    /// A handle stays within its slot.
    pub open spec fn wf(self, pool: BufPool) -> bool {
        &&& pool.live(self.index)
        &&& self.off + self.len <= pool.buf_size
    }

    /// The bytes this handle covers.
    pub open spec fn bytes(self, pool: BufPool) -> Seq<u8> {
        pool.slot_bytes(self.index).subrange(self.off as int, self.off as int + self.len as int)
    }

    /// Allocates from the pool: a fresh writable handle over a whole
    /// slot.
    pub fn allocate(pool: &mut BufPool) -> (r: Result<BufMut, Error>)
        requires
            old(pool).wf(),
            old(pool).num_buf * old(pool).buf_size <= usize::MAX,
        ensures
            final(pool).wf(),
            final(pool).buf_size == old(pool).buf_size,
            final(pool).num_buf == old(pool).num_buf,
            r matches Ok(b) ==> (b.wf(*final(pool)) && final(pool).rc(b.index) == 1 && b.off == 0
                && b.len == final(pool).buf_size),
            r matches Ok(b) ==> (final(pool).free_len() + 1 == (if old(pool).inner is Some {
                old(pool).free_len()
            } else {
                old(pool).num_buf as int
            }) && (forall|j: u32|
                j < final(pool).num_buf && j != b.index ==> final(pool).rc(j) == (
                if old(pool).inner is Some {
                    old(pool).rc(j)
                } else {
                    0int
                }))),
            (old(pool).inner matches Some(i) && i.free@.len() == 0) ==> (r matches Err(e)
                && e is OutOfMemory),
            (old(pool).inner matches Some(i) && i.free@.len() > 0) ==> r is Ok,
    {
        pool.allocate()
    }

    pub fn len(&self) -> (r: usize)
        ensures
            r == self.len,
    {
        self.len as usize
    }

    pub fn is_empty(&self) -> (r: bool)
        ensures
            r == (self.len == 0),
    {
        self.len == 0
    }

    /// Freezes into a read-only handle; the reference count stays at 1
    /// and the bytes are untouched.
    pub fn freeze(self) -> (r: Buf)
        ensures
            r.index == self.index,
            r.off == self.off,
            r.len == self.len,
    {
        Buf { index: self.index, off: self.off, len: self.len }
    }
}


impl BufMut {
    /// Writes `src` into this buffer at `at`; no other slot's bytes move.
    pub fn write_at(&self, pool: &mut BufPool, at: usize, src: &[u8])
        requires
            old(pool).wf(),
            self.wf(*old(pool)),
            at + src@.len() <= self.len,
        ensures
            final(pool).wf(),
            final(pool).buf_size == old(pool).buf_size,
            final(pool).num_buf == old(pool).num_buf,
            final(pool).free_len() == old(pool).free_len(),
            forall|j: u32| j < final(pool).num_buf ==> final(pool).rc(j) == old(pool).rc(j),
            self.wf(*final(pool)),
            self.bytes(*final(pool)) == self.bytes(*old(pool)).take(at as int) + src@
                + self.bytes(*old(pool)).skip(at as int + src@.len() as int),
            forall|j: u32|
                j < final(pool).num_buf && j != self.index ==> final(pool).slot_bytes(j) == old(
                    pool,
                ).slot_bytes(j),
    {
        let ghost pre = *pool;
        let bs = pool.buf_size as usize;
        proof {
            assert((self.index as int) * (pool.buf_size as int) + pool.buf_size as int <= (
            pool.num_buf as int) * (pool.buf_size as int)) by (nonlinear_arith)
                requires
                    self.index < pool.num_buf,
            ;
        }
        let start = (self.index as usize) * bs + (self.off as usize) + at;
        let inner = match &mut pool.inner {
            Some(i) => i,
            None => {
                proof {
                    assert(false);
                }
                return ;
            },
        };
        region_write(&mut inner.map, start, src);
        proof {
            let bs = pre.buf_size as int;
            let sstart = self.index * bs;
            let newmap = pool.inner.unwrap().map;
            let oldmap = pre.inner.unwrap().map;
            assert(self.bytes(*pool) =~= self.bytes(pre).take(at as int) + src@ + self.bytes(
                pre,
            ).skip(at as int + src@.len() as int));
            assert forall|j: u32|
                j < pool.num_buf && j != self.index implies pool.slot_bytes(j) == pre.slot_bytes(
                j,
            ) by {
                assert((j as int) * bs + bs <= (self.index as int) * bs || (self.index as int)
                    * bs + bs <= (j as int) * bs) by (nonlinear_arith)
                    requires
                        j != self.index,
                        j < pool.num_buf,
                        self.index < pool.num_buf,
                        bs >= 0,
                ;
                assert((j as int) * bs + bs <= (pool.num_buf as int) * bs) by (nonlinear_arith)
                    requires
                        j < pool.num_buf,
                        bs >= 0,
                ;
                let jstart = j * bs;
                assert(start + src@.len() <= sstart + bs);
                assert forall|x: int|
                    0 <= x < bs implies pool.slot_bytes(j)[x] == pre.slot_bytes(j)[x] by {
                    assert(pool.slot_bytes(j)[x] == region_bytes(newmap)[jstart + x]);
                    assert(pre.slot_bytes(j)[x] == region_bytes(oldmap)[jstart + x]);
                    assert(jstart + x < start || jstart + x >= start + src@.len());
                    assert(region_bytes(newmap)[jstart + x] == region_bytes(oldmap)[jstart + x]);
                }
                assert(pool.slot_bytes(j) =~= pre.slot_bytes(j));
            }
        }
    }

    /// Reads `n` bytes of this buffer starting at `at`.
    pub fn read_at(&self, pool: &BufPool, at: usize, n: usize) -> (r: Vec<u8>)
        requires
            pool.wf(),
            self.wf(*pool),
            at + n <= self.len,
        ensures
            r@ == self.bytes(*pool).subrange(at as int, at as int + n as int),
    {
        let bs = pool.buf_size as usize;
        proof {
            assert((self.index as int) * (pool.buf_size as int) + pool.buf_size as int <= (
            pool.num_buf as int) * (pool.buf_size as int)) by (nonlinear_arith)
                requires
                    self.index < pool.num_buf,
            ;
        }
        let start = (self.index as usize) * bs + (self.off as usize) + at;
        let inner = match &pool.inner {
            Some(i) => i,
            None => {
                proof {
                    assert(false);
                }
                return Vec::new();
            },
        };
        let r = region_read(&inner.map, start, n);
        proof {
            assert(r@ =~= self.bytes(*pool).subrange(at as int, at as int + n as int));
        }
        r
    }

    /// Gives the slot's reference back without freezing; the slot frees
    /// when this was the last handle.
    pub fn release(self, pool: &mut BufPool)
        requires
            old(pool).wf(),
            self.wf(*old(pool)),
            old(pool).free_len() < u32::MAX,
        ensures
            final(pool).wf(),
            final(pool).buf_size == old(pool).buf_size,
            final(pool).num_buf == old(pool).num_buf,
            final(pool).rc(self.index) == old(pool).rc(self.index) - 1,
            final(pool).free_len() == old(pool).free_len() + (if old(pool).rc(self.index) == 1 {
                1int
            } else {
                0int
            }),
            forall|j: u32|
                j < final(pool).num_buf ==> final(pool).slot_bytes(j) == old(pool).slot_bytes(j),
    {
        pool.dec(self.index);
    }
}

impl Buf {
    /// A handle stays within its slot.
    pub open spec fn wf(self, pool: BufPool) -> bool {
        &&& pool.live(self.index)
        &&& self.off + self.len <= pool.buf_size
    }

    /// The bytes this handle covers.
    pub open spec fn bytes(self, pool: BufPool) -> Seq<u8> {
        pool.slot_bytes(self.index).subrange(self.off as int, self.off as int + self.len as int)
    }

    pub fn len(&self) -> (r: usize)
        ensures
            r == self.len,
    {
        self.len as usize
    }

    pub fn is_empty(&self) -> (r: bool)
        ensures
            r == (self.len == 0),
    {
        self.len == 0
    }

    /// One more read-only handle to the same bytes; the count goes up by
    /// one and nothing else moves.
    pub fn clone_in(&self, pool: &mut BufPool) -> (r: Buf)
        requires
            old(pool).wf(),
            self.wf(*old(pool)),
            old(pool).rc(self.index) < u16::MAX,
        ensures
            final(pool).wf(),
            final(pool).buf_size == old(pool).buf_size,
            final(pool).num_buf == old(pool).num_buf,
            final(pool).rc(self.index) == old(pool).rc(self.index) + 1,
            final(pool).free_len() == old(pool).free_len(),
            forall|j: u32|
                j < final(pool).num_buf && j != self.index ==> final(pool).rc(j) == old(
                    pool,
                ).rc(j),
            forall|j: u32|
                j < final(pool).num_buf ==> final(pool).slot_bytes(j) == old(pool).slot_bytes(j),
            r == *self,
            r.wf(*final(pool)),
    {
        pool.inc(self.index);
        Buf { index: self.index, off: self.off, len: self.len }
    }

    /// Reads `n` bytes of this buffer starting at `at`.
    pub fn read_at(&self, pool: &BufPool, at: usize, n: usize) -> (r: Vec<u8>)
        requires
            pool.wf(),
            self.wf(*pool),
            at + n <= self.len,
        ensures
            r@ == self.bytes(*pool).subrange(at as int, at as int + n as int),
    {
        let bs = pool.buf_size as usize;
        proof {
            assert((self.index as int) * (pool.buf_size as int) + pool.buf_size as int <= (
            pool.num_buf as int) * (pool.buf_size as int)) by (nonlinear_arith)
                requires
                    self.index < pool.num_buf,
            ;
        }
        let start = (self.index as usize) * bs + (self.off as usize) + at;
        let inner = match &pool.inner {
            Some(i) => i,
            None => {
                proof {
                    assert(false);
                }
                return Vec::new();
            },
        };
        let r = region_read(&inner.map, start, n);
        proof {
            assert(r@ =~= self.bytes(*pool).subrange(at as int, at as int + n as int));
        }
        r
    }

    /// Drops this reference; the slot frees when it was the last.
    pub fn release(self, pool: &mut BufPool)
        requires
            old(pool).wf(),
            self.wf(*old(pool)),
            old(pool).free_len() < u32::MAX,
        ensures
            final(pool).wf(),
            final(pool).buf_size == old(pool).buf_size,
            final(pool).num_buf == old(pool).num_buf,
            final(pool).rc(self.index) == old(pool).rc(self.index) - 1,
            final(pool).free_len() == old(pool).free_len() + (if old(pool).rc(self.index) == 1 {
                1int
            } else {
                0int
            }),
            forall|j: u32|
                j < final(pool).num_buf && j != self.index ==> final(pool).rc(j) == old(
                    pool,
                ).rc(j),
            forall|j: u32|
                j < final(pool).num_buf ==> final(pool).slot_bytes(j) == old(pool).slot_bytes(j),
    {
        pool.dec(self.index);
    }
}


/// A slot is on the free list or referenced, never both: every free
/// entry has a zero count, and every zero-count slot is on the list, so
/// no slot can be handed out twice or freed twice.
pub proof fn lemma_free_means_unreferenced(pool: BufPool, k: int)
    requires
        pool.wf(),
        pool.inner is Some,
        0 <= k < pool.inner.unwrap().free@.len(),
    ensures
        pool.rc(pool.inner.unwrap().free@[k]) == 0,
{
}

/// A slot lies inside the region: its window is well formed and exactly
/// `buf_size` bytes long.
pub proof fn lemma_slot_in_region(pool: BufPool, index: u32)
    requires
        pool.wf(),
        pool.inner is Some,
        index < pool.num_buf,
    ensures
        (index as int) * pool.buf_size + pool.buf_size <= pool.num_buf * pool.buf_size,
        pool.slot_bytes(index).len() == pool.buf_size,
{
    assert((index as int) * (pool.buf_size as int) + pool.buf_size as int <= (pool.num_buf as int)
        * (pool.buf_size as int)) by (nonlinear_arith)
        requires
            index < pool.num_buf,
    ;
}

} // verus!
