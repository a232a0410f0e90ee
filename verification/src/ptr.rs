//! Virtual and direct pointers, and the durable copy primitives.
//!
//! A *virtual pointer* is the only pointer form safe to keep inside the
//! persistent store: a pool identifier and a byte offset, independent of
//! where the pool happens to be mapped. Pool identifier zero is reserved for
//! the null pointer. A *direct pointer* is a virtual pointer linked against
//! one live mapping's base address; it resolves to an address valid for this
//! process and this mapping only, and must never be persisted.
//!
//! The copy primitives at the end of the module move bytes into the mapped
//! region and leave them flushed and drained before returning; their
//! deferred counterparts live in the `nodrain` module.

use vstd::prelude::*;
use core::marker::PhantomData;

use crate::pmap::PersistentMap;

verus! {

/// A persistable, mapping-independent pointer with read intent.
pub struct PmemConstVirtualPtr<T> {
    pub poolid: usize,
    pub offset: usize,
    pub element: PhantomData<T>,
}

impl<T> PmemConstVirtualPtr<T> {
    /// Pool identifier zero is reserved for null.
    pub open spec fn spec_is_null(self) -> bool {
        self.poolid == 0
    }

    /// The pointer `n` elements further on: the offset moves by `n` strides
    /// of the element size, and null stays null.
    pub open spec fn spec_offset(self, n: int) -> PmemConstVirtualPtr<T> {
        if self.poolid == 0 {
            PmemConstVirtualPtr { poolid: 0, offset: 0, element: PhantomData }
        } else {
            PmemConstVirtualPtr {
                poolid: self.poolid,
                offset: (self.offset + vstd::layout::size_of::<T>() * n) as usize,
                element: PhantomData,
            }
        }
    }

    /// This pointer bound to a mapping whose region starts at `base`.
    pub open spec fn spec_link(self, base: usize) -> PmemConstPtr<T> {
        PmemConstPtr { virt: self, pool: base }
    }

    /// A non-null pointer into the pool identified by `poolid`, at byte
    /// offset `offset`. Identifier zero is reserved for null and refused.
    pub fn new(poolid: usize, offset: usize) -> (p: Self)
        requires
            poolid != 0,
        ensures
            p.poolid == poolid,
            p.offset == offset,
    {
        PmemConstVirtualPtr { poolid, offset, element: PhantomData }
    }

    /// The null pointer.
    pub fn null() -> (p: Self)
        ensures
            p.poolid == 0,
            p.offset == 0,
            p.spec_is_null(),
    {
        PmemConstVirtualPtr { poolid: 0, offset: 0, element: PhantomData }
    }

    pub fn is_null(&self) -> (b: bool)
        ensures
            b == self.spec_is_null(),
    {
        self.poolid == 0
    }

    /// The same location reinterpreted as pointing to another element type.
    /// Nothing checks that the new type matches what is stored there; that is
    /// the caller's contract.
    pub fn as_type<U>(&self) -> (p: PmemConstVirtualPtr<U>)
        ensures
            p.poolid == self.poolid,
            p.offset == self.offset,
    {
        PmemConstVirtualPtr { poolid: self.poolid, offset: self.offset, element: PhantomData }
    }

    /// Escalates read intent to write intent, keeping the representation.
    /// The caller must justify the escalation; nothing checks it.
    pub fn as_mut(&self) -> (p: PmemMutVirtualPtr<T>)
        ensures
            p.poolid == self.poolid,
            p.offset == self.offset,
    {
        PmemMutVirtualPtr { poolid: self.poolid, offset: self.offset, element: PhantomData }
    }

    /// The pointer `count` elements further on. Advancing null is a no-op
    /// that yields null, as pointer arithmetic on null does elsewhere.
    pub fn offset(&self, count: isize) -> (p: Self)
        requires
            !self.spec_is_null() ==> 0 <= self.offset + vstd::layout::size_of::<T>() * count
                <= usize::MAX,
        ensures
            p == self.spec_offset(count as int),
    {
        if self.is_null() {
            Self::null()
        } else {
            let new_offset = offset_by::<T>(self.offset, count);
            PmemConstVirtualPtr { poolid: self.poolid, offset: new_offset, element: PhantomData }
        }
    }

    /// Binds this pointer to a live mapping. The caller guarantees that the
    /// pool identifier belongs to this mapping; nothing verifies the
    /// correspondence.
    pub fn link(&self, pool: &PersistentMap) -> (p: PmemConstPtr<T>)
        ensures
            p == self.spec_link(pool.base),
    {
        PmemConstPtr { virt: *self, pool: pool.base }
    }
}

/// A persistable, mapping-independent pointer with write intent.
pub struct PmemMutVirtualPtr<T> {
    pub poolid: usize,
    pub offset: usize,
    pub element: PhantomData<T>,
}

impl<T> PmemMutVirtualPtr<T> {
    /// Pool identifier zero is reserved for null.
    pub open spec fn spec_is_null(self) -> bool {
        self.poolid == 0
    }

    /// The pointer `n` elements further on: the offset moves by `n` strides
    /// of the element size, and null stays null.
    pub open spec fn spec_offset(self, n: int) -> PmemMutVirtualPtr<T> {
        if self.poolid == 0 {
            PmemMutVirtualPtr { poolid: 0, offset: 0, element: PhantomData }
        } else {
            PmemMutVirtualPtr {
                poolid: self.poolid,
                offset: (self.offset + vstd::layout::size_of::<T>() * n) as usize,
                element: PhantomData,
            }
        }
    }

    /// This pointer bound to a mapping whose region starts at `base`.
    pub open spec fn spec_link(self, base: usize) -> PmemMutPtr<T> {
        PmemMutPtr { virt: self, pool: base }
    }

    /// A non-null pointer into the pool identified by `poolid`, at byte
    /// offset `offset`. Identifier zero is reserved for null and refused.
    pub fn new(poolid: usize, offset: usize) -> (p: Self)
        requires
            poolid != 0,
        ensures
            p.poolid == poolid,
            p.offset == offset,
    {
        PmemMutVirtualPtr { poolid, offset, element: PhantomData }
    }

    /// The null pointer.
    pub fn null() -> (p: Self)
        ensures
            p.poolid == 0,
            p.offset == 0,
            p.spec_is_null(),
    {
        PmemMutVirtualPtr { poolid: 0, offset: 0, element: PhantomData }
    }

    pub fn is_null(&self) -> (b: bool)
        ensures
            b == self.spec_is_null(),
    {
        self.poolid == 0
    }

    /// The same location reinterpreted as pointing to another element type.
    /// Nothing checks that the new type matches what is stored there; that is
    /// the caller's contract.
    pub fn as_type<U>(&self) -> (p: PmemMutVirtualPtr<U>)
        ensures
            p.poolid == self.poolid,
            p.offset == self.offset,
    {
        PmemMutVirtualPtr { poolid: self.poolid, offset: self.offset, element: PhantomData }
    }

    /// Downgrades write intent to read intent, keeping the representation.
    /// Always allowed.
    pub fn as_const(&self) -> (p: PmemConstVirtualPtr<T>)
        ensures
            p.poolid == self.poolid,
            p.offset == self.offset,
    {
        PmemConstVirtualPtr { poolid: self.poolid, offset: self.offset, element: PhantomData }
    }

    /// The pointer `count` elements further on. Advancing null is a no-op
    /// that yields null, as pointer arithmetic on null does elsewhere.
    pub fn offset(&self, count: isize) -> (p: Self)
        requires
            !self.spec_is_null() ==> 0 <= self.offset + vstd::layout::size_of::<T>() * count
                <= usize::MAX,
        ensures
            p == self.spec_offset(count as int),
    {
        if self.is_null() {
            Self::null()
        } else {
            let new_offset = offset_by::<T>(self.offset, count);
            PmemMutVirtualPtr { poolid: self.poolid, offset: new_offset, element: PhantomData }
        }
    }

    /// Binds this pointer to a live mapping. The caller guarantees that the
    /// pool identifier belongs to this mapping; nothing verifies the
    /// correspondence.
    pub fn link(&self, pool: &PersistentMap) -> (p: PmemMutPtr<T>)
        ensures
            p == self.spec_link(pool.base),
    {
        PmemMutPtr { virt: *self, pool: pool.base }
    }
}

/// `off` moved by `count` strides of `T`'s size.
fn offset_by<T>(off: usize, count: isize) -> (r: usize)
    requires
        0 <= off + vstd::layout::size_of::<T>() * count <= usize::MAX,
    ensures
        r == off + vstd::layout::size_of::<T>() * count,
{
    let stride = core::mem::size_of::<T>();
    if count >= 0 {
        let mag = count as usize;
        proof {
            assert(stride * mag == vstd::layout::size_of::<T>() * count);
        }
        off + stride * mag
    } else {
        let mag = (-(count + 1)) as usize + 1;
        proof {
            let s = vstd::layout::size_of::<T>() as int;
            let c = count as int;
            let m = mag as int;
            assert(m == -c);
            assert(s * m == -(s * c)) by (nonlinear_arith)
                requires
                    m == -c,
            ;
            assert(s * m <= off as int);
            assert(stride as int * m == s * m);
        }
        off - stride * mag
    }
}

/// A direct read pointer: a virtual pointer bound to one live mapping.
///
/// Valid only while that mapping stays mapped at the recorded base; never
/// store one inside the persistent region, since it embeds an address
/// specific to this process. `as_virtual` recovers the safe form.
pub struct PmemConstPtr<T> {
    pub virt: PmemConstVirtualPtr<T>,
    pub pool: usize,
}

impl<T> PmemConstPtr<T> {
    /// The address this pointer resolves to: null resolves to the null
    /// address, anything else to the mapping base plus the virtual offset.
    pub open spec fn spec_addr(self) -> int {
        if self.virt.poolid == 0 {
            0
        } else {
            self.pool + self.virt.offset
        }
    }

    pub fn is_null(&self) -> (b: bool)
        ensures
            b == self.virt.spec_is_null(),
    {
        self.virt.is_null()
    }

    /// Escalates read intent to write intent, keeping the representation.
    /// The caller must justify the escalation; nothing checks it.
    pub fn as_mut(&self) -> (p: PmemMutPtr<T>)
        ensures
            p.virt.poolid == self.virt.poolid,
            p.virt.offset == self.virt.offset,
            p.pool == self.pool,
    {
        PmemMutPtr { virt: self.virt.as_mut(), pool: self.pool }
    }

    /// Resolves to an address for the current process. Null resolves to the
    /// null address without touching memory. No bounds check is made against
    /// the mapping's length; staying inside it is the caller's contract.
    pub fn direct(&self) -> (addr: usize)
        requires
            !self.virt.spec_is_null() ==> self.pool + self.virt.offset <= usize::MAX,
        ensures
            addr == self.spec_addr(),
    {
        if self.is_null() {
            0
        } else {
            self.pool + self.virt.offset
        }
    }

    /// The mapping-independent form, safe to persist.
    pub fn as_virtual(self) -> (p: PmemConstVirtualPtr<T>)
        ensures
            p == self.virt,
    {
        self.virt
    }

    /// The pointer `count` elements further on, still bound to the same
    /// mapping. Advancing null yields null.
    pub fn offset(&self, count: isize) -> (p: Self)
        requires
            !self.virt.spec_is_null() ==> 0 <= self.virt.offset + vstd::layout::size_of::<T>()
                * count <= usize::MAX,
        ensures
            p.virt == self.virt.spec_offset(count as int),
            p.pool == self.pool,
    {
        let new_virt = self.virt.offset(count);
        PmemConstPtr { virt: new_virt, pool: self.pool }
    }

    /// The same location reinterpreted as pointing to another element type,
    /// still bound to the same mapping. Nothing checks the reinterpretation.
    pub fn as_type<U>(&self) -> (p: PmemConstPtr<U>)
        ensures
            p.virt.poolid == self.virt.poolid,
            p.virt.offset == self.virt.offset,
            p.pool == self.pool,
    {
        let new_virt = self.virt.as_type();
        PmemConstPtr { virt: new_virt, pool: self.pool }
    }
}

/// A direct write pointer: a virtual pointer bound to one live mapping.
///
/// Valid only while that mapping stays mapped at the recorded base; never
/// store one inside the persistent region, since it embeds an address
/// specific to this process. `as_virtual` recovers the safe form.
pub struct PmemMutPtr<T> {
    pub virt: PmemMutVirtualPtr<T>,
    pub pool: usize,
}

impl<T> PmemMutPtr<T> {
    /// The address this pointer resolves to: null resolves to the null
    /// address, anything else to the mapping base plus the virtual offset.
    pub open spec fn spec_addr(self) -> int {
        if self.virt.poolid == 0 {
            0
        } else {
            self.pool + self.virt.offset
        }
    }

    pub fn is_null(&self) -> (b: bool)
        ensures
            b == self.virt.spec_is_null(),
    {
        self.virt.is_null()
    }

    /// Downgrades write intent to read intent, keeping the representation.
    /// Always allowed.
    pub fn as_const(&self) -> (p: PmemConstPtr<T>)
        ensures
            p.virt.poolid == self.virt.poolid,
            p.virt.offset == self.virt.offset,
            p.pool == self.pool,
    {
        PmemConstPtr { virt: self.virt.as_const(), pool: self.pool }
    }

    /// Resolves to an address for the current process. Null resolves to the
    /// null address without touching memory. No bounds check is made against
    /// the mapping's length; staying inside it is the caller's contract.
    pub fn direct(&self) -> (addr: usize)
        requires
            !self.virt.spec_is_null() ==> self.pool + self.virt.offset <= usize::MAX,
        ensures
            addr == self.spec_addr(),
    {
        if self.is_null() {
            0
        } else {
            self.pool + self.virt.offset
        }
    }

    /// The mapping-independent form, safe to persist.
    pub fn as_virtual(self) -> (p: PmemMutVirtualPtr<T>)
        ensures
            p == self.virt,
    {
        self.virt
    }

    /// The pointer `count` elements further on, still bound to the same
    /// mapping. Advancing null yields null.
    pub fn offset(&self, count: isize) -> (p: Self)
        requires
            !self.virt.spec_is_null() ==> 0 <= self.virt.offset + vstd::layout::size_of::<T>()
                * count <= usize::MAX,
        ensures
            p.virt == self.virt.spec_offset(count as int),
            p.pool == self.pool,
    {
        let new_virt = self.virt.offset(count);
        PmemMutPtr { virt: new_virt, pool: self.pool }
    }

    /// The same location reinterpreted as pointing to another element type,
    /// still bound to the same mapping. Nothing checks the reinterpretation.
    pub fn as_type<U>(&self) -> (p: PmemMutPtr<U>)
        ensures
            p.virt.poolid == self.virt.poolid,
            p.virt.offset == self.virt.offset,
            p.pool == self.pool,
    {
        let new_virt = self.virt.as_type();
        PmemMutPtr { virt: new_virt, pool: self.pool }
    }
}


impl<T> Copy for PmemConstVirtualPtr<T> {

}

impl<T> Clone for PmemConstVirtualPtr<T> {
    fn clone(&self) -> (r: Self)
        ensures
            r == *self,
    {
        *self
    }
}

impl<T> Copy for PmemMutVirtualPtr<T> {

}

impl<T> Clone for PmemMutVirtualPtr<T> {
    fn clone(&self) -> (r: Self)
        ensures
            r == *self,
    {
        *self
    }
}

impl<T> Copy for PmemConstPtr<T> {

}

impl<T> Clone for PmemConstPtr<T> {
    fn clone(&self) -> (r: Self)
        ensures
            r == *self,
    {
        *self
    }
}

impl<T> Copy for PmemMutPtr<T> {

}

impl<T> Clone for PmemMutPtr<T> {
    fn clone(&self) -> (r: Self)
        ensures
            r == *self,
    {
        *self
    }
}

/// Round-trip of pointer arithmetic and resolution: moving a non-null read
/// pointer by `n` elements and then linking and resolving lands exactly `n`
/// strides past the address the unmoved pointer resolves to.
pub proof fn lemma_offset_then_resolve<T>(v: PmemConstVirtualPtr<T>, base: usize, n: int)
    requires
        !v.spec_is_null(),
        0 <= v.offset + vstd::layout::size_of::<T>() * n,
        base + v.offset + vstd::layout::size_of::<T>() * n <= usize::MAX,
    ensures
        v.spec_offset(n).spec_link(base).spec_addr() == v.spec_link(base).spec_addr()
            + vstd::layout::size_of::<T>() * n,
{
}

/// Round-trip of pointer arithmetic and resolution, for write pointers.
pub proof fn lemma_offset_then_resolve_mut<T>(v: PmemMutVirtualPtr<T>, base: usize, n: int)
    requires
        !v.spec_is_null(),
        0 <= v.offset + vstd::layout::size_of::<T>() * n,
        base + v.offset + vstd::layout::size_of::<T>() * n <= usize::MAX,
    ensures
        v.spec_offset(n).spec_link(base).spec_addr() == v.spec_link(base).spec_addr()
            + vstd::layout::size_of::<T>() * n,
{
}

/// Null propagation: advancing the null read pointer by any count yields
/// null, and a null pointer, linked against any mapping, resolves to the
/// null address without touching memory.
pub proof fn lemma_null_propagation<T>(v: PmemConstVirtualPtr<T>, n: int, base: usize)
    requires
        v.spec_is_null(),
    ensures
        v.spec_offset(n).spec_is_null(),
        v.spec_offset(n).spec_link(base).spec_addr() == 0,
        v.spec_link(base).spec_addr() == 0,
{
}

/// Null propagation, for write pointers.
pub proof fn lemma_null_propagation_mut<T>(v: PmemMutVirtualPtr<T>, n: int, base: usize)
    requires
        v.spec_is_null(),
    ensures
        v.spec_offset(n).spec_is_null(),
        v.spec_offset(n).spec_link(base).spec_addr() == 0,
        v.spec_link(base).spec_addr() == 0,
{
}

/// Moves `count` elements' worth of bytes within the mapped region from
/// `src` to `dest`, as a block move: the two ranges may overlap. The moved
/// bytes are flushed and, on true persistent memory, drained to stable media
/// before the call returns.
pub fn copy<T>(map: &mut PersistentMap, src: usize, dest: usize, count: usize)
    requires
        old(map).wf(),
        src + vstd::layout::size_of::<T>() * count <= old(map).data@.len(),
        dest + vstd::layout::size_of::<T>() * count <= old(map).data@.len(),
    ensures
        final(map).wf(),
        final(map).base == old(map).base,
        final(map).is_pmem == old(map).is_pmem,
        final(map).data@ == crate::overwrite(
            old(map).data@,
            dest as int,
            old(map).data@.subrange(
                src as int,
                src + vstd::layout::size_of::<T>() * count,
            ),
        ),
        old(map).is_pmem ==> final(map).flushed@ == crate::overwrite(
            old(map).flushed@,
            dest as int,
            old(map).data@.subrange(
                src as int,
                src + vstd::layout::size_of::<T>() * count,
            ),
        ) && final(map).durable@ == final(map).flushed@,
        !old(map).is_pmem ==> final(map).flushed@ == old(map).flushed@
            && final(map).durable@ == old(map).durable@,
{
    let len = core::mem::size_of::<T>() * count;
    let tmp = crate::pmap::read_range(&map.data, src, len);
    map.deferred_write(dest, tmp.as_slice());
    map.drain_all();
}

/// As `copy`, but the source and destination ranges must not overlap; the
/// restriction is what lets the underlying move be faster.
pub fn copy_nonoverlapping<T>(map: &mut PersistentMap, src: usize, dest: usize, count: usize)
    requires
        old(map).wf(),
        src + vstd::layout::size_of::<T>() * count <= old(map).data@.len(),
        dest + vstd::layout::size_of::<T>() * count <= old(map).data@.len(),
        src + vstd::layout::size_of::<T>() * count <= dest || dest + vstd::layout::size_of::<T>()
            * count <= src,
    ensures
        final(map).wf(),
        final(map).base == old(map).base,
        final(map).is_pmem == old(map).is_pmem,
        final(map).data@ == crate::overwrite(
            old(map).data@,
            dest as int,
            old(map).data@.subrange(
                src as int,
                src + vstd::layout::size_of::<T>() * count,
            ),
        ),
        old(map).is_pmem ==> final(map).flushed@ == crate::overwrite(
            old(map).flushed@,
            dest as int,
            old(map).data@.subrange(
                src as int,
                src + vstd::layout::size_of::<T>() * count,
            ),
        ) && final(map).durable@ == final(map).flushed@,
        !old(map).is_pmem ==> final(map).flushed@ == old(map).flushed@
            && final(map).durable@ == old(map).durable@,
{
    let len = core::mem::size_of::<T>() * count;
    let tmp = crate::pmap::read_range(&map.data, src, len);
    map.deferred_write(dest, tmp.as_slice());
    map.drain_all();
}

/// Fills `count` elements' worth of bytes starting at `dest` with the byte
/// `val`, flushed and, on true persistent memory, drained before returning.
pub fn write_bytes<T>(map: &mut PersistentMap, dest: usize, val: u8, count: usize)
    requires
        old(map).wf(),
        dest + vstd::layout::size_of::<T>() * count <= old(map).data@.len(),
    ensures
        final(map).wf(),
        final(map).base == old(map).base,
        final(map).is_pmem == old(map).is_pmem,
        final(map).data@ == crate::overwrite(
            old(map).data@,
            dest as int,
            Seq::new((vstd::layout::size_of::<T>() * count) as nat, |i: int| val),
        ),
        old(map).is_pmem ==> final(map).flushed@ == crate::overwrite(
            old(map).flushed@,
            dest as int,
            Seq::new((vstd::layout::size_of::<T>() * count) as nat, |i: int| val),
        ) && final(map).durable@ == final(map).flushed@,
        !old(map).is_pmem ==> final(map).flushed@ == old(map).flushed@
            && final(map).durable@ == old(map).durable@,
{
    let len = core::mem::size_of::<T>() * count;
    let fill = crate::pmap::byte_fill(val, len);
    map.deferred_write(dest, fill.as_slice());
    map.drain_all();
}

/// Overwrites one element's location at `dest` with the byte image `val`,
/// without reading or releasing whatever was there before; the caller
/// answers for not leaking a value that needed cleanup. Flushed and, on true
/// persistent memory, drained before returning.
pub fn write<T>(map: &mut PersistentMap, dest: usize, val: &[u8])
    requires
        old(map).wf(),
        val@.len() == vstd::layout::size_of::<T>(),
        dest + val@.len() <= old(map).data@.len(),
    ensures
        final(map).wf(),
        final(map).base == old(map).base,
        final(map).is_pmem == old(map).is_pmem,
        final(map).data@ == crate::overwrite(old(map).data@, dest as int, val@),
        old(map).is_pmem ==> final(map).flushed@ == crate::overwrite(
            old(map).flushed@,
            dest as int,
            val@,
        ) && final(map).durable@ == final(map).flushed@,
        !old(map).is_pmem ==> final(map).flushed@ == old(map).flushed@
            && final(map).durable@ == old(map).durable@,
{
    map.deferred_write(dest, val);
    map.drain_all();
}

/// Forces `count` elements' worth of bytes starting at `offset` onto stable
/// media through the operating system: the durability path that works on any
/// mapping, persistent memory or not. The in-memory region itself cannot
/// fail to sync; the error arm carries the code an operating-system-backed
/// mapping would report.
pub fn msync<T>(map: &mut PersistentMap, offset: usize, count: usize) -> (r: Result<
    (),
    crate::SyncError,
>)
    requires
        old(map).wf(),
        offset + vstd::layout::size_of::<T>() * count <= old(map).data@.len(),
    ensures
        final(map).wf(),
        final(map).base == old(map).base,
        final(map).is_pmem == old(map).is_pmem,
        final(map).data@ == old(map).data@,
        final(map).flushed@ == crate::overwrite(
            old(map).flushed@,
            offset as int,
            old(map).data@.subrange(
                offset as int,
                offset + vstd::layout::size_of::<T>() * count,
            ),
        ),
        final(map).durable@ == crate::overwrite(
            old(map).durable@,
            offset as int,
            old(map).data@.subrange(
                offset as int,
                offset + vstd::layout::size_of::<T>() * count,
            ),
        ),
        r is Ok,
    {
    let len = core::mem::size_of::<T>() * count;
    map.msync_range(offset, len);
    Ok(())
}

/// The null read pointer.
pub fn null<T>() -> (p: PmemConstVirtualPtr<T>)
    ensures
        p.spec_is_null(),
        p.offset == 0,
{
    PmemConstVirtualPtr::null()
}

/// The null write pointer.
pub fn null_mut<T>() -> (p: PmemMutVirtualPtr<T>)
    ensures
        p.spec_is_null(),
        p.offset == 0,
{
    PmemMutVirtualPtr::null()
}

} // verus!
