//! The persistent map: one mapped region of a backing store.

use vstd::prelude::*;

verus! {

/// Create the named backing file if it does not exist.
pub const FILE_CREATE: i32 = 0b00000001;

/// With `FILE_CREATE`: fail if the file already exists.
pub const FILE_EXCL: i32 = 0b00000010;

/// When creating, make a sparse (holey) file instead of eagerly reserving
/// every block.
pub const FILE_SPARSE: i32 = 0b00000100;

/// Create a mapping for an unnamed temporary file inside the given
/// directory.
pub const FILE_TMPFILE: i32 = 0b00001000;

/// How the backing file of a mapping is created or opened. The flags travel
/// to the operating-system mapping call as the bit pattern `bits` computes.
pub struct CreationFlags {
    pub create: bool,
    pub excl: bool,
    pub sparse: bool,
    pub tmpfile: bool,
}

impl CreationFlags {
    /// No flags: open an existing file at its full length.
    pub fn empty() -> (f: Self)
        ensures
            !f.create && !f.excl && !f.sparse && !f.tmpfile,
    {
        CreationFlags { create: false, excl: false, sparse: false, tmpfile: false }
    }

    /// The flags `create` assembles: the file must be created here and now.
    pub fn for_create(sparse: bool) -> (f: Self)
        ensures
            f.create && f.excl && f.sparse == sparse && !f.tmpfile,
    {
        CreationFlags { create: true, excl: true, sparse, tmpfile: false }
    }

    /// The flags `create_tmp` assembles: an unnamed temporary file.
    pub fn for_create_tmp(sparse: bool) -> (f: Self)
        ensures
            !f.create && f.excl && f.sparse == sparse && f.tmpfile,
    {
        CreationFlags { create: false, excl: true, sparse, tmpfile: true }
    }

    /// The flags `open_or_create` assembles: create only if absent.
    pub fn for_open_or_create(sparse: bool) -> (f: Self)
        ensures
            f.create && !f.excl && f.sparse == sparse && !f.tmpfile,
    {
        CreationFlags { create: true, excl: false, sparse, tmpfile: false }
    }

    /// The bit pattern handed to the operating-system mapping call.
    pub fn bits(&self) -> (b: i32)
        ensures
            b == (if self.create {
                FILE_CREATE
            } else {
                0
            }) + (if self.excl {
                FILE_EXCL
            } else {
                0
            }) + (if self.sparse {
                FILE_SPARSE
            } else {
                0
            }) + (if self.tmpfile {
                FILE_TMPFILE
            } else {
                0
            }),
    {
        let mut b: i32 = 0;
        if self.create {
            b = b + FILE_CREATE;
        }
        if self.excl {
            b = b + FILE_EXCL;
        }
        if self.sparse {
            b = b + FILE_SPARSE;
        }
        if self.tmpfile {
            b = b + FILE_TMPFILE;
        }
        b
    }
}

/// One read/write mapping of a persistent backing store.
///
/// `data` is the mapped region as the process sees it. Alongside it the map
/// keeps the two durability images that give flush and drain their meaning:
/// `flushed` holds the bytes that have left the processor caches and will be
/// on stable media after one drain; `durable` holds the bytes that are on
/// stable media now, i.e. the contents a fresh mapping would read if the
/// process were torn down this instant.
///
/// `base` is the address at which this mapping starts; a store reopened later
/// may well be given a different one, which is why only virtual pointers are
/// safe to keep inside the store itself. `is_pmem` records, once at mapping
/// time, whether the region is true persistent memory; the determination is
/// expensive, so it is cached here and never recomputed.
pub struct PersistentMap {
    pub data: Vec<u8>,
    pub flushed: Vec<u8>,
    pub durable: Vec<u8>,
    pub base: usize,
    pub is_pmem: bool,
}

impl PersistentMap {
    /// The three images cover the same region, and every in-bounds offset
    /// resolves against `base` without wrapping.
    pub open spec fn wf(self) -> bool {
        &&& self.flushed@.len() == self.data@.len()
        &&& self.durable@.len() == self.data@.len()
        &&& self.base + self.data@.len() <= usize::MAX
    }

    /// Maps a freshly created backing store of `len` bytes. A new store reads
    /// as all zeroes, and those zeroes are already on stable media.
    pub fn create(len: usize, base: usize, is_pmem: bool) -> (m: Self)
        requires
            base + len <= usize::MAX,
        ensures
            m.wf(),
            m.data@ == Seq::new(len as nat, |i: int| 0u8),
            m.flushed@ == m.data@,
            m.durable@ == m.data@,
            m.base == base,
            m.is_pmem == is_pmem,
    {
        let data = zero_bytes(len);
        let flushed = zero_bytes(len);
        let durable = zero_bytes(len);
        PersistentMap { data, flushed, durable, base, is_pmem }
    }

    /// The length of the mapped region. For an operating-system-backed file
    /// this is the actual mapped length, which may differ from the requested
    /// one, e.g. through page-size rounding.
    pub fn len(&self) -> (n: usize)
        ensures
            n == self.data@.len(),
    {
        self.data.len()
    }

    /// The capability flag determined when the mapping was made. Callers may
    /// rely on it never changing for the lifetime of the map.
    pub fn is_pmem(&self) -> (b: bool)
        ensures
            b == self.is_pmem,
    {
        self.is_pmem
    }

    /// Maps a freshly created anonymous backing store of `len` bytes, as for
    /// an unnamed temporary file. The region behaves exactly as a named one.
    pub fn create_tmp(len: usize, base: usize, is_pmem: bool) -> (m: Self)
        requires
            base + len <= usize::MAX,
        ensures
            m.wf(),
            m.data@ == Seq::new(len as nat, |i: int| 0u8),
            m.flushed@ == m.data@,
            m.durable@ == m.data@,
            m.base == base,
            m.is_pmem == is_pmem,
    {
        Self::create(len, base, is_pmem)
    }

    /// Maps an existing backing store whose stable contents are `contents`,
    /// at its full existing length. What is on stable media is exactly what
    /// the fresh mapping reads.
    pub fn open(contents: Vec<u8>, base: usize, is_pmem: bool) -> (m: Self)
        requires
            base + contents@.len() <= usize::MAX,
        ensures
            m.wf(),
            m.data@ == contents@,
            m.flushed@ == contents@,
            m.durable@ == contents@,
            m.base == base,
            m.is_pmem == is_pmem,
    {
        let n = contents.len();
        let flushed = read_range(&contents, 0, n);
        let durable = read_range(&contents, 0, n);
        proof {
            assert(contents@.subrange(0, n as int) =~= contents@);
        }
        PersistentMap { data: contents, flushed, durable, base, is_pmem }
    }

    /// Opens the store if it already exists, else creates one of `len` bytes.
    pub fn open_or_create(existing: Option<Vec<u8>>, len: usize, base: usize, is_pmem: bool) -> (m:
        Self)
        requires
            existing is Some ==> base + existing->0@.len() <= usize::MAX,
            existing is None ==> base + len <= usize::MAX,
        ensures
            m.wf(),
            m.base == base,
            m.is_pmem == is_pmem,
            existing is Some ==> m.data@ == existing->0@,
            existing is None ==> m.data@ == Seq::new(len as nat, |i: int| 0u8),
            m.flushed@ == m.data@,
            m.durable@ == m.data@,
    {
        match existing {
            Some(contents) => Self::open(contents, base, is_pmem),
            None => Self::create(len, base, is_pmem),
        }
    }

    /// The contents a fresh mapping of this store would read if the process
    /// were torn down right now: the bytes that are on stable media.
    pub fn crash_image(&self) -> (img: Vec<u8>)
        ensures
            img@ == self.durable@,
    {
        let n = self.durable.len();
        let img = read_range(&self.durable, 0, n);
        proof {
            assert(self.durable@.subrange(0, n as int) =~= self.durable@);
        }
        img
    }

    /// The mapped region as a contiguous byte view, valid while the map is
    /// alive. All mutation goes through the copy primitives, which keep the
    /// durability images in step.
    pub fn as_bytes(&self) -> (r: &Vec<u8>)
        ensures
            r@ == self.data@,
    {
        &self.data
    }

    /// Reads `count` bytes of the mapped region starting at `offset`.
    pub fn read_bytes(&self, offset: usize, count: usize) -> (v: Vec<u8>)
        requires
            offset + count <= self.data@.len(),
        ensures
            v@ == self.data@.subrange(offset as int, offset + count),
    {
        read_range(&self.data, offset, count)
    }

    /// Writes `bytes` at `dest` with deferred durability: the mapped contents
    /// change at once and, on true persistent memory, the bytes are flushed;
    /// they are not on stable media until a drain.
    pub fn deferred_write(&mut self, dest: usize, bytes: &[u8])
        requires
            old(self).wf(),
            dest + bytes@.len() <= old(self).data@.len(),
        ensures
            final(self).wf(),
            final(self).base == old(self).base,
            final(self).is_pmem == old(self).is_pmem,
            final(self).data@ == crate::overwrite(old(self).data@, dest as int, bytes@),
            old(self).is_pmem ==> final(self).flushed@ == crate::overwrite(
                old(self).flushed@,
                dest as int,
                bytes@,
            ),
            !old(self).is_pmem ==> final(self).flushed@ == old(self).flushed@,
            final(self).durable@ == old(self).durable@,
    {
        write_range(&mut self.data, dest, bytes);
        if self.is_pmem {
            write_range(&mut self.flushed, dest, bytes);
        }
    }

    /// Waits until every flushed byte is on stable media. On a region that is
    /// not true persistent memory a drain settles nothing; durability there
    /// comes from `msync`.
    pub(crate) fn drain_all(&mut self)
        requires
            old(self).wf(),
        ensures
            final(self).wf(),
            final(self).base == old(self).base,
            final(self).is_pmem == old(self).is_pmem,
            final(self).data@ == old(self).data@,
            final(self).flushed@ == old(self).flushed@,
            old(self).is_pmem ==> final(self).durable@ == old(self).flushed@,
            !old(self).is_pmem ==> final(self).durable@ == old(self).durable@,
    {
        if self.is_pmem {
            let n = self.flushed.len();
            let img = read_range(&self.flushed, 0, n);
            proof {
                assert(self.flushed@.subrange(0, n as int) =~= self.flushed@);
            }
            self.durable = img;
        }
    }

    /// Pushes the bytes of the given range out of the processor caches. On
    /// true persistent memory they will be on stable media after one drain;
    /// elsewhere a flush settles nothing.
    pub(crate) fn flush_range(&mut self, offset: usize, count: usize)
        requires
            old(self).wf(),
            offset + count <= old(self).data@.len(),
        ensures
            final(self).wf(),
            final(self).base == old(self).base,
            final(self).is_pmem == old(self).is_pmem,
            final(self).data@ == old(self).data@,
            old(self).is_pmem ==> final(self).flushed@ == crate::overwrite(
                old(self).flushed@,
                offset as int,
                old(self).data@.subrange(offset as int, offset + count),
            ),
            !old(self).is_pmem ==> final(self).flushed@ == old(self).flushed@,
            final(self).durable@ == old(self).durable@,
    {
        if self.is_pmem {
            let tmp = read_range(&self.data, offset, count);
            write_range(&mut self.flushed, offset, &tmp);
        }
    }

    /// Forces the given range onto stable media through the operating
    /// system, the durability path for mappings that are not true persistent
    /// memory. Works on either kind of region.
    pub(crate) fn msync_range(&mut self, offset: usize, count: usize)
        requires
            old(self).wf(),
            offset + count <= old(self).data@.len(),
        ensures
            final(self).wf(),
            final(self).base == old(self).base,
            final(self).is_pmem == old(self).is_pmem,
            final(self).data@ == old(self).data@,
            final(self).flushed@ == crate::overwrite(
                old(self).flushed@,
                offset as int,
                old(self).data@.subrange(offset as int, offset + count),
            ),
            final(self).durable@ == crate::overwrite(
                old(self).durable@,
                offset as int,
                old(self).data@.subrange(offset as int, offset + count),
            ),
    {
        let tmp = read_range(&self.data, offset, count);
        write_range(&mut self.flushed, offset, &tmp);
        write_range(&mut self.durable, offset, &tmp);
    }

    /// An owning cell over the element-sized location at `offset`, with the
    /// bytes there left exactly as they are. The caller answers for their
    /// validity as a value of `T`.
    pub fn uninitialized<T>(&self, offset: usize) -> (c: crate::cell::PmemCell<T>)
        requires
            self.wf(),
            offset <= self.data@.len(),
        ensures
            c.addr == self.base + offset,
    {
        crate::cell::PmemCell::new(self.base + offset)
    }

    /// Durably zeroes the element-sized location at `offset` and hands back
    /// an owning cell over it.
    pub fn zeroed<T>(&mut self, offset: usize) -> (c: crate::cell::PmemCell<T>)
        requires
            old(self).wf(),
            offset + vstd::layout::size_of::<T>() <= old(self).data@.len(),
        ensures
            c.addr == old(self).base + offset,
            final(self).wf(),
            final(self).base == old(self).base,
            final(self).is_pmem == old(self).is_pmem,
            final(self).data@ == crate::overwrite(
                old(self).data@,
                offset as int,
                Seq::new(vstd::layout::size_of::<T>(), |i: int| 0u8),
            ),
            old(self).is_pmem ==> final(self).flushed@ == crate::overwrite(
                old(self).flushed@,
                offset as int,
                Seq::new(vstd::layout::size_of::<T>(), |i: int| 0u8),
            ) && final(self).durable@ == final(self).flushed@,
            !old(self).is_pmem ==> final(self).flushed@ == old(self).flushed@
                && final(self).durable@ == old(self).durable@,
    {
        let count = core::mem::size_of::<T>();
        let zeroes = zero_bytes(count);
        self.deferred_write(offset, zeroes.as_slice());
        self.drain_all();
        crate::cell::PmemCell::new(self.base + offset)
    }

    /// Durably writes the byte image `val` of one element of `T` at `offset`,
    /// without reading or releasing whatever was there before, and hands back
    /// an owning cell over the location.
    pub fn write<T>(&mut self, offset: usize, val: &[u8]) -> (c: crate::cell::PmemCell<T>)
        requires
            old(self).wf(),
            val@.len() == vstd::layout::size_of::<T>(),
            offset + val@.len() <= old(self).data@.len(),
        ensures
            c.addr == old(self).base + offset,
            final(self).wf(),
            final(self).base == old(self).base,
            final(self).is_pmem == old(self).is_pmem,
            final(self).data@ == crate::overwrite(old(self).data@, offset as int, val@),
            old(self).is_pmem ==> final(self).flushed@ == crate::overwrite(
                old(self).flushed@,
                offset as int,
                val@,
            ) && final(self).durable@ == final(self).flushed@,
            !old(self).is_pmem ==> final(self).flushed@ == old(self).flushed@
                && final(self).durable@ == old(self).durable@,
    {
        self.deferred_write(offset, val);
        self.drain_all();
        crate::cell::PmemCell::new(self.base + offset)
    }
}

/// Writes `src` over `dst` starting at `off`, in place.
pub(crate) fn write_range(dst: &mut Vec<u8>, off: usize, src: &[u8])
    requires
        off + src@.len() <= old(dst)@.len(),
    ensures
        final(dst)@ == crate::overwrite(old(dst)@, off as int, src@),
{
    let n = src.len();
    let dn = dst.len();
    let mut k: usize = 0;
    while k < n
        invariant
            n == src@.len(),
            dn == dst@.len(),
            off + src@.len() <= dst@.len(),
            dst@.len() <= usize::MAX,
            k <= src@.len(),
            dst@.len() == old(dst)@.len(),
            forall|i: int|
                0 <= i < dst@.len() ==> dst@[i] == (if off <= i < off + k {
                    src@[i - off]
                } else {
                    old(dst)@[i]
                }),
        decreases src@.len() - k,
    {
        dst[off + k] = src[k];
        k = k + 1;
    }
    proof {
        assert(dst@ =~= crate::overwrite(old(dst)@, off as int, src@));
    }
}

/// Copies `count` bytes starting at `off` out of `src`.
pub(crate) fn read_range(src: &Vec<u8>, off: usize, count: usize) -> (v: Vec<u8>)
    requires
        off + count <= src@.len(),
    ensures
        v@ == src@.subrange(off as int, off + count),
{
    let n = src.len();
    let mut v: Vec<u8> = Vec::new();
    let mut k: usize = 0;
    while k < count
        invariant
            n == src@.len(),
            off + count <= src@.len(),
            k <= count,
            v@ == src@.subrange(off as int, off + k),
        decreases count - k,
    {
        let b = src[off + k];
        v.push(b);
        k = k + 1;
        proof {
            assert(v@ =~= src@.subrange(off as int, off + k));
        }
    }
    v
}

/// A vector of `len` bytes, each holding `val`.
pub(crate) fn byte_fill(val: u8, len: usize) -> (v: Vec<u8>)
    ensures
        v@ == Seq::new(len as nat, |i: int| val),
{
    let mut v: Vec<u8> = Vec::new();
    let mut k: usize = 0;
    while k < len
        invariant
            k <= len,
            v@ == Seq::new(k as nat, |i: int| val),
        decreases len - k,
    {
        v.push(val);
        k = k + 1;
        proof {
            assert(v@ =~= Seq::new(k as nat, |i: int| val));
        }
    }
    v
}

/// A vector of `len` zero bytes.
fn zero_bytes(len: usize) -> (v: Vec<u8>)
    ensures
        v@ == Seq::new(len as nat, |i: int| 0u8),
{
    byte_fill(0u8, len)
}

} // verus!
