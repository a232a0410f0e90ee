//! Deferred-durability copy primitives.
//!
//! These mirror the primitives in `ptr`, except that they skip the final
//! drain: the written bytes are flushed toward stable media but are not
//! guaranteed durable until the caller drains once. Batching many of these
//! and draining a single time is the whole point — the drain is the
//! expensive step, and one per batch suffices.
//!
//! On a region that is not true persistent memory these primitives change
//! the mapped contents but settle no durability at all; use `msync` there.

use vstd::prelude::*;

use crate::pmap::PersistentMap;

verus! {

/// The write pairs of a batch as the spec level sees them: destination
/// offsets widened and byte vectors viewed as sequences.
pub open spec fn batch_view(ws: Seq<(usize, Vec<u8>)>) -> Seq<(int, Seq<u8>)> {
    ws.map_values(|w: (usize, Vec<u8>)| (w.0 as int, w.1@))
}

/// Performs a batch of deferred writes in order. Every write is flushed on
/// true persistent memory, none is drained: the caller drains exactly once
/// after the batch, which is the cheap way to make all of them durable.
pub fn write_batch(map: &mut PersistentMap, writes: &Vec<(usize, Vec<u8>)>)
    requires
        old(map).wf(),
        forall|j: int|
            0 <= j < writes@.len() ==> #[trigger] writes@[j].0 + writes@[j].1@.len() <= old(
                map,
            ).data@.len(),
    ensures
        final(map).wf(),
        final(map).base == old(map).base,
        final(map).is_pmem == old(map).is_pmem,
        final(map).data@ == crate::apply_writes(old(map).data@, batch_view(writes@)),
        old(map).is_pmem ==> final(map).flushed@ == crate::apply_writes(
            old(map).flushed@,
            batch_view(writes@),
        ),
        !old(map).is_pmem ==> final(map).flushed@ == old(map).flushed@,
        final(map).durable@ == old(map).durable@,
{
    let n = writes.len();
    let mut k: usize = 0;
    while k < n
        invariant
            n == writes@.len(),
            k <= n,
            forall|j: int|
                0 <= j < writes@.len() ==> #[trigger] writes@[j].0 + writes@[j].1@.len() <= old(
                    map,
                ).data@.len(),
            map.wf(),
            map.base == old(map).base,
            map.is_pmem == old(map).is_pmem,
            map.data@ == crate::apply_writes(old(map).data@, batch_view(writes@.take(k as int))),
            old(map).is_pmem ==> map.flushed@ == crate::apply_writes(
                old(map).flushed@,
                batch_view(writes@.take(k as int)),
            ),
            !old(map).is_pmem ==> map.flushed@ == old(map).flushed@,
            map.durable@ == old(map).durable@,
        decreases n - k,
    {
        proof {
            crate::lemma_apply_writes_len(old(map).data@, batch_view(writes@.take(k as int)));
            crate::lemma_apply_writes_len(old(map).flushed@, batch_view(writes@.take(k as int)));
        }
        let dest = writes[k].0;
        map.deferred_write(dest, writes[k].1.as_slice());
        k = k + 1;
        proof {
            assert(writes@.take(k as int).drop_last() =~= writes@.take(k as int - 1));
            assert(batch_view(writes@.take(k as int)).drop_last() =~= batch_view(
                writes@.take(k as int - 1),
            ));
        }
    }
    proof {
        assert(writes@.take(n as int) =~= writes@);
    }
}

/// Moves `count` elements' worth of bytes within the mapped region from
/// `src` to `dest`, as a block move: the two ranges may overlap. The bytes
/// are flushed but not drained.
pub fn copy<T>(map: &mut PersistentMap, src: usize, dest: usize, count: usize)
    requires
        old(map).wf(),
        src + vstd::layout::size_of::<T>() * count <= old(map).data@.len(),
        dest + vstd::layout::size_of::<T>() * count <= old(map).data@.len(),
    ensures
        final(map).wf(),
        final(map).base == old(map).base,
        final(map).is_pmem == old(map).is_pmem,
        final(map).data@ == crate::overwrite(
            old(map).data@,
            dest as int,
            old(map).data@.subrange(
                src as int,
                src + vstd::layout::size_of::<T>() * count,
            ),
        ),
        old(map).is_pmem ==> final(map).flushed@ == crate::overwrite(
            old(map).flushed@,
            dest as int,
            old(map).data@.subrange(
                src as int,
                src + vstd::layout::size_of::<T>() * count,
            ),
        ),
        !old(map).is_pmem ==> final(map).flushed@ == old(map).flushed@,
        final(map).durable@ == old(map).durable@,
{
    let len = core::mem::size_of::<T>() * count;
    let tmp = crate::pmap::read_range(&map.data, src, len);
    map.deferred_write(dest, tmp.as_slice());
}

/// As `copy`, but the source and destination ranges must not overlap; the
/// restriction is what lets the underlying move be faster.
pub fn copy_nooverlapping<T>(map: &mut PersistentMap, src: usize, dest: usize, count: usize)
    requires
        old(map).wf(),
        src + vstd::layout::size_of::<T>() * count <= old(map).data@.len(),
        dest + vstd::layout::size_of::<T>() * count <= old(map).data@.len(),
        src + vstd::layout::size_of::<T>() * count <= dest || dest + vstd::layout::size_of::<T>()
            * count <= src,
    ensures
        final(map).wf(),
        final(map).base == old(map).base,
        final(map).is_pmem == old(map).is_pmem,
        final(map).data@ == crate::overwrite(
            old(map).data@,
            dest as int,
            old(map).data@.subrange(
                src as int,
                src + vstd::layout::size_of::<T>() * count,
            ),
        ),
        old(map).is_pmem ==> final(map).flushed@ == crate::overwrite(
            old(map).flushed@,
            dest as int,
            old(map).data@.subrange(
                src as int,
                src + vstd::layout::size_of::<T>() * count,
            ),
        ),
        !old(map).is_pmem ==> final(map).flushed@ == old(map).flushed@,
        final(map).durable@ == old(map).durable@,
{
    let len = core::mem::size_of::<T>() * count;
    let tmp = crate::pmap::read_range(&map.data, src, len);
    map.deferred_write(dest, tmp.as_slice());
}

/// Fills `count` elements' worth of bytes starting at `dest` with the byte
/// `val`. The bytes are flushed but not drained.
pub fn write_bytes<T>(map: &mut PersistentMap, dest: usize, val: u8, count: usize)
    requires
        old(map).wf(),
        dest + vstd::layout::size_of::<T>() * count <= old(map).data@.len(),
    ensures
        final(map).wf(),
        final(map).base == old(map).base,
        final(map).is_pmem == old(map).is_pmem,
        final(map).data@ == crate::overwrite(
            old(map).data@,
            dest as int,
            Seq::new((vstd::layout::size_of::<T>() * count) as nat, |i: int| val),
        ),
        old(map).is_pmem ==> final(map).flushed@ == crate::overwrite(
            old(map).flushed@,
            dest as int,
            Seq::new((vstd::layout::size_of::<T>() * count) as nat, |i: int| val),
        ),
        !old(map).is_pmem ==> final(map).flushed@ == old(map).flushed@,
        final(map).durable@ == old(map).durable@,
{
    let len = core::mem::size_of::<T>() * count;
    let fill = crate::pmap::byte_fill(val, len);
    map.deferred_write(dest, fill.as_slice());
}

} // verus!
