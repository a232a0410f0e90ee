//! A persistent-memory addressing and durable-copy layer.
//!
//! The crate models a byte-addressable persistent store that a process maps
//! into its address space. Because the store may be mapped at a different
//! base address each time it is opened, references kept inside the store are
//! *virtual pointers* (pool identifier plus byte offset); they are linked
//! against a live mapping to obtain *direct pointers* that resolve to
//! addresses valid only for that mapping. Writes reach stable media through
//! copy primitives with an explicit durability order: a *flush* pushes the
//! bytes toward the memory controller, a *drain* waits until every flushed
//! byte is on stable media, and *persist* is the two in sequence.

use vstd::prelude::*;

pub mod blk;
pub mod cell;
pub mod nodrain;
pub mod pmap;
pub mod ptr;

use crate::pmap::PersistentMap;

verus! {

/// An error code reported by the operating system when a durability request
/// on a mapping it backs could not be honored. The in-memory region used
/// here cannot fail to sync; the type carries the code an
/// operating-system-backed mapping reports on its fallback path.
#[derive(Clone, Copy, PartialEq, Eq, Structural, Debug)]
pub struct SyncError {
    pub errno: i32,
}

/// A byte sequence with `v` written over it starting at `off`; bytes outside
/// the written range keep their old values.
pub open spec fn overwrite(s: Seq<u8>, off: int, v: Seq<u8>) -> Seq<u8> {
    Seq::new(s.len(), |i: int| if off <= i < off + v.len() { v[i - off] } else { s[i] })
}

/// Bytes written over a range stand in the result exactly.
pub proof fn lemma_overwrite_in_range(s: Seq<u8>, off: int, v: Seq<u8>, i: int)
    requires
        0 <= off,
        off + v.len() <= s.len(),
        off <= i < off + v.len(),
    ensures
        overwrite(s, off, v)[i] == v[i - off],
{
}

/// Bytes outside the written range are untouched.
pub proof fn lemma_overwrite_frame(s: Seq<u8>, off: int, v: Seq<u8>, i: int)
    requires
        0 <= i < s.len(),
        i < off || off + v.len() <= i,
    ensures
        overwrite(s, off, v)[i] == s[i],
{
}

/// Pushes the bytes of the given range out of the processor caches: the
/// first of the two steps of durability. On true persistent memory they will
/// be on stable media after one drain; elsewhere a flush settles nothing and
/// `msync` is the durability path.
pub fn flush(map: &mut PersistentMap, offset: usize, count: usize)
    requires
        old(map).wf(),
        offset + count <= old(map).data@.len(),
    ensures
        final(map).wf(),
        final(map).base == old(map).base,
        final(map).is_pmem == old(map).is_pmem,
        final(map).data@ == old(map).data@,
        old(map).is_pmem ==> final(map).flushed@ == overwrite(
            old(map).flushed@,
            offset as int,
            old(map).data@.subrange(offset as int, offset + count),
        ),
        !old(map).is_pmem ==> final(map).flushed@ == old(map).flushed@,
        final(map).durable@ == old(map).durable@,
{
    map.flush_range(offset, count);
}

/// Waits until every byte flushed so far is on stable media: the second of
/// the two steps of durability. One drain settles a whole batch of deferred
/// writes at once.
pub fn drain(map: &mut PersistentMap)
    requires
        old(map).wf(),
    ensures
        final(map).wf(),
        final(map).base == old(map).base,
        final(map).is_pmem == old(map).is_pmem,
        final(map).data@ == old(map).data@,
        final(map).flushed@ == old(map).flushed@,
        old(map).is_pmem ==> final(map).durable@ == old(map).flushed@,
        !old(map).is_pmem ==> final(map).durable@ == old(map).durable@,
{
    map.drain_all();
}

/// Forces the bytes of the given range to be stored durably: a flush
/// followed by a drain, the default path of the immediately-durable
/// primitives.
pub fn persist(map: &mut PersistentMap, offset: usize, count: usize)
    requires
        old(map).wf(),
        offset + count <= old(map).data@.len(),
    ensures
        final(map).wf(),
        final(map).base == old(map).base,
        final(map).is_pmem == old(map).is_pmem,
        final(map).data@ == old(map).data@,
        old(map).is_pmem ==> final(map).flushed@ == overwrite(
            old(map).flushed@,
            offset as int,
            old(map).data@.subrange(offset as int, offset + count),
        ) && final(map).durable@ == final(map).flushed@,
        !old(map).is_pmem ==> final(map).flushed@ == old(map).flushed@
            && final(map).durable@ == old(map).durable@,
{
    map.flush_range(offset, count);
    map.drain_all();
}

/// Forces the whole mapped region onto stable media through the operating
/// system, the durability path for mappings that are not true persistent
/// memory. Works on either kind of region. The in-memory region itself
/// cannot fail to sync; the error arm carries the code an
/// operating-system-backed mapping would report.
pub fn msync(map: &mut PersistentMap) -> (r: Result<(), SyncError>)
    requires
        old(map).wf(),
    ensures
        final(map).wf(),
        final(map).base == old(map).base,
        final(map).is_pmem == old(map).is_pmem,
        final(map).data@ == old(map).data@,
        final(map).flushed@ == old(map).data@,
        final(map).durable@ == old(map).data@,
        r is Ok,
{
    let n = map.data.len();
    map.msync_range(0, n);
    proof {
        assert(overwrite(old(map).flushed@, 0, old(map).data@.subrange(0, n as int)) =~= old(
            map,
        ).data@);
        assert(overwrite(old(map).durable@, 0, old(map).data@.subrange(0, n as int)) =~= old(
            map,
        ).data@);
    }
    Ok(())
}

/// Durability ordering: once an immediately-durable write has returned, the
/// written bytes stand in the durable image, so a mapping reopened from that
/// image — after however hard a process termination — reads them back.
///
/// `flushed` is the flushed image the map held before the write; the
/// immediately-durable primitives leave the durable image equal to
/// `overwrite(flushed, off, v)`, which is what a fresh mapping then reads.
pub proof fn lemma_durable_write_survives_crash(
    flushed: Seq<u8>,
    off: int,
    v: Seq<u8>,
    reopened: Seq<u8>,
)
    requires
        0 <= off,
        off + v.len() <= flushed.len(),
        reopened == overwrite(flushed, off, v),
    ensures
        reopened.subrange(off, off + v.len()) == v,
{
    assert forall|i: int| 0 <= i < v.len() implies reopened.subrange(off, off + v.len())[i]
        == v[i] by {
        lemma_overwrite_in_range(flushed, off, v, off + i);
    }
    assert(reopened.subrange(off, off + v.len()) =~= v);
}

/// A batch of writes applied in order to a byte image, each a pair of a
/// destination offset and the written bytes.
pub open spec fn apply_writes(s: Seq<u8>, ws: Seq<(int, Seq<u8>)>) -> Seq<u8>
    decreases ws.len(),
{
    if ws.len() == 0 {
        s
    } else {
        overwrite(apply_writes(s, ws.drop_last()), ws.last().0, ws.last().1)
    }
}

/// Applying writes never changes the length of the image.
pub proof fn lemma_apply_writes_len(s: Seq<u8>, ws: Seq<(int, Seq<u8>)>)
    ensures
        apply_writes(s, ws).len() == s.len(),
    decreases ws.len(),
{
    if ws.len() > 0 {
        lemma_apply_writes_len(s, ws.drop_last());
    }
}

/// The writes of a batch land where they are aimed: after a batch of writes
/// to ranges that lie in bounds and do not overlap one another, every write
/// of the batch stands whole in the resulting image.
pub proof fn lemma_apply_writes_disjoint(s: Seq<u8>, ws: Seq<(int, Seq<u8>)>, k: int)
    requires
        0 <= k < ws.len(),
        forall|j: int|
            0 <= j < ws.len() ==> 0 <= #[trigger] ws[j].0 && ws[j].0 + ws[j].1.len() <= s.len(),
        forall|j1: int, j2: int|
            0 <= j1 < j2 < ws.len() ==> #[trigger] ws[j1].0 + ws[j1].1.len() <= #[trigger] ws[j2].0
                || ws[j2].0 + ws[j2].1.len() <= ws[j1].0,
    ensures
        apply_writes(s, ws).subrange(ws[k].0, ws[k].0 + ws[k].1.len()) == ws[k].1,
    decreases ws.len(),
{
    lemma_apply_writes_len(s, ws.drop_last());
    if k == ws.len() - 1 {
        assert(apply_writes(s, ws).subrange(ws[k].0, ws[k].0 + ws[k].1.len()) =~= ws[k].1);
    } else {
        lemma_apply_writes_disjoint(s, ws.drop_last(), k);
        lemma_apply_writes_len(s, ws);
        let prev = apply_writes(s, ws.drop_last());
        // the last write of the batch is disjoint from write k's range, so it
        // leaves that range untouched
        assert forall|i: int| ws[k].0 <= i < ws[k].0 + ws[k].1.len() implies apply_writes(s, ws)[i]
            == prev[i] by {
            lemma_overwrite_frame(prev, ws.last().0, ws.last().1, i);
        }
        assert(apply_writes(s, ws).subrange(ws[k].0, ws[k].0 + ws[k].1.len()) =~= prev.subrange(
            ws[k].0,
            ws[k].0 + ws[k].1.len(),
        ));
    }
}

/// Deferred writes plus a single drain: a batch of deferred writes to
/// disjoint in-bounds ranges, followed by exactly one drain, leaves every
/// write of the batch durable. Each deferred write moves the flushed image
/// by `overwrite`, so after the batch it is `apply_writes` of the writes;
/// the one drain makes that image the durable one.
pub proof fn lemma_deferred_writes_single_drain(
    flushed: Seq<u8>,
    ws: Seq<(int, Seq<u8>)>,
    durable_after_drain: Seq<u8>,
    k: int,
)
    requires
        0 <= k < ws.len(),
        forall|j: int|
            0 <= j < ws.len() ==> 0 <= #[trigger] ws[j].0 && ws[j].0 + ws[j].1.len()
                <= flushed.len(),
        forall|j1: int, j2: int|
            0 <= j1 < j2 < ws.len() ==> #[trigger] ws[j1].0 + ws[j1].1.len() <= #[trigger] ws[j2].0
                || ws[j2].0 + ws[j2].1.len() <= ws[j1].0,
        durable_after_drain == apply_writes(flushed, ws),
    ensures
        durable_after_drain.subrange(ws[k].0, ws[k].0 + ws[k].1.len()) == ws[k].1,
{
    lemma_apply_writes_disjoint(flushed, ws, k);
}

/// Remap stability: a value made durable under one mapping is read back
/// through a fresh link of the same virtual pointer under a later mapping of
/// the same store, whatever base address that mapping was given.
pub proof fn lemma_remap_stability<T>(
    v: crate::ptr::PmemConstVirtualPtr<T>,
    first: PersistentMap,
    reopened: PersistentMap,
    written: Seq<u8>,
)
    requires
        !v.spec_is_null(),
        v.offset + written.len() <= first.durable@.len(),
        first.durable@.subrange(v.offset as int, v.offset + written.len()) == written,
        reopened.data@ == first.durable@,
    ensures
        v.spec_link(reopened.base).spec_addr() - reopened.base == v.offset,
        reopened.data@.subrange(v.offset as int, v.offset + written.len()) == written,
{
}

} // verus!
