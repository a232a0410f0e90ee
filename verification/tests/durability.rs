use pmem::pmap::PersistentMap;
use pmem::ptr::PmemMutVirtualPtr;

#[test]
fn durable_write_survives_simulated_crash() {
    let mut map = PersistentMap::create(4096, 0x5000, true);
    let payload = [7u8, 20, 34, 90];
    pmem::ptr::write::<[u8; 4]>(&mut map, 128, &payload);
    // simulated hard termination: all that survives is the durable image
    let img = map.crash_image();
    drop(map);
    let reopened = PersistentMap::open(img, 0x9000, true);
    assert_eq!(reopened.read_bytes(128, 4).as_slice(), &payload[..]);
}

#[test]
fn deferred_write_alone_is_not_durable() {
    let mut map = PersistentMap::create(1024, 0, true);
    map.deferred_write(0, &[1, 2, 3]);
    let img = map.crash_image();
    assert_eq!(&img[0..3], &[0, 0, 0]);
    // after exactly one drain the write is durable
    pmem::drain(&mut map);
    let img2 = map.crash_image();
    assert_eq!(&img2[0..3], &[1, 2, 3]);
}

#[test]
fn deferred_copies_need_a_drain() {
    let mut map = PersistentMap::create(64, 0, true);
    pmem::ptr::write::<[u8; 4]>(&mut map, 0, &[9, 8, 7, 6]);
    pmem::nodrain::copy::<u8>(&mut map, 0, 16, 4);
    pmem::nodrain::copy_nooverlapping::<u8>(&mut map, 0, 32, 4);
    pmem::nodrain::write_bytes::<u8>(&mut map, 48, 0x3c, 4);
    // visible through the mapping at once
    assert_eq!(map.read_bytes(16, 4).as_slice(), &[9, 8, 7, 6]);
    assert_eq!(map.read_bytes(32, 4).as_slice(), &[9, 8, 7, 6]);
    assert_eq!(map.read_bytes(48, 4).as_slice(), &[0x3c; 4]);
    // but not durable yet
    let img = map.crash_image();
    assert_eq!(&img[16..20], &[0, 0, 0, 0]);
    assert_eq!(&img[32..36], &[0, 0, 0, 0]);
    assert_eq!(&img[48..52], &[0, 0, 0, 0]);
    pmem::drain(&mut map);
    let img = map.crash_image();
    assert_eq!(&img[16..20], &[9, 8, 7, 6]);
    assert_eq!(&img[32..36], &[9, 8, 7, 6]);
    assert_eq!(&img[48..52], &[0x3c; 4]);
}

#[test]
fn thousand_deferred_writes_one_drain() {
    let mut map = PersistentMap::create(8192, 1 << 20, true);
    for k in 0u64..1000 {
        let bytes = (k.wrapping_mul(k).wrapping_add(1)).to_le_bytes();
        map.deferred_write((k as usize) * 8, &bytes);
    }
    pmem::drain(&mut map);
    let img = map.crash_image();
    drop(map);
    let reopened = PersistentMap::open(img, 1 << 21, true);
    for k in 0u64..1000 {
        let got = reopened.read_bytes((k as usize) * 8, 8);
        let mut arr = [0u8; 8];
        arr.copy_from_slice(got.as_slice());
        assert_eq!(u64::from_le_bytes(arr), k.wrapping_mul(k).wrapping_add(1));
    }
}

#[test]
fn batched_deferred_writes_one_drain() {
    let mut map = PersistentMap::create(8192, 0x8000, true);
    let mut batch: Vec<(usize, Vec<u8>)> = Vec::new();
    for k in 0u64..1000 {
        batch.push(((k as usize) * 8, (k ^ 0x5a5a).to_le_bytes().to_vec()));
    }
    pmem::nodrain::write_batch(&mut map, &batch);
    // nothing durable before the drain
    assert!(map.crash_image().iter().all(|b| *b == 0));
    pmem::drain(&mut map);
    let img = map.crash_image();
    let reopened = PersistentMap::open(img, 0xf000, true);
    for k in 0u64..1000 {
        let got = reopened.read_bytes((k as usize) * 8, 8);
        let mut arr = [0u8; 8];
        arr.copy_from_slice(got.as_slice());
        assert_eq!(u64::from_le_bytes(arr), k ^ 0x5a5a);
    }
}

#[test]
fn pointer_resolves_after_remap() {
    let mut map = PersistentMap::create(4096, 0x4000_0000, true);
    let v: PmemMutVirtualPtr<u64> = PmemMutVirtualPtr::new(1, 256);
    let d = v.link(&map);
    let off = d.direct() - map.base;
    assert_eq!(off, 256);
    let value = 0xdead_beef_0badu64.to_le_bytes();
    pmem::ptr::write::<u64>(&mut map, off, &value);
    let img = map.crash_image();
    drop(map);
    // the store comes back at a different base address
    let map2 = PersistentMap::open(img, 0x7000_0000, true);
    let d2 = v.as_const().link(&map2);
    let off2 = d2.direct() - map2.base;
    assert_eq!(off2, 256);
    assert_eq!(map2.read_bytes(off2, 8).as_slice(), &value[..]);
}

#[test]
fn persist_makes_a_range_durable() {
    let mut map = PersistentMap::create(512, 0, true);
    map.deferred_write(32, &[11, 22, 33]);
    pmem::persist(&mut map, 32, 3);
    let img = map.crash_image();
    assert_eq!(&img[32..35], &[11, 22, 33]);
}

#[test]
fn flush_then_drain_equals_persist() {
    let mut map = PersistentMap::create(512, 0, true);
    map.deferred_write(8, &[5, 6]);
    pmem::flush(&mut map, 8, 2);
    assert_eq!(&map.crash_image()[8..10], &[0, 0]);
    pmem::drain(&mut map);
    assert_eq!(&map.crash_image()[8..10], &[5, 6]);
}

#[test]
fn msync_settles_a_non_pmem_mapping() {
    let mut map = PersistentMap::create(512, 0, false);
    map.deferred_write(10, &[42; 16]);
    assert_eq!(map.crash_image()[10], 0);
    // a drain settles nothing on a mapping that is not true persistent memory
    pmem::drain(&mut map);
    assert_eq!(map.crash_image()[10], 0);
    assert!(pmem::msync(&mut map).is_ok());
    assert_eq!(map.crash_image()[10], 42);
    assert_eq!(map.crash_image()[25], 42);
}

#[test]
fn ranged_msync_settles_only_its_range() {
    let mut map = PersistentMap::create(512, 0, false);
    map.deferred_write(0, &[1; 32]);
    let r = pmem::ptr::msync::<u64>(&mut map, 0, 2);
    assert!(r.is_ok());
    let img = map.crash_image();
    assert_eq!(&img[0..16], &[1; 16]);
    assert_eq!(&img[16..32], &[0; 16]);
}

#[test]
fn immediately_durable_primitives_drain_everything_pending() {
    let mut map = PersistentMap::create(256, 0, true);
    // a deferred write left pending...
    map.deferred_write(100, &[77]);
    // ...is settled by the drain inside any immediately-durable primitive
    pmem::ptr::write_bytes::<u8>(&mut map, 0, 1, 4);
    let img = map.crash_image();
    assert_eq!(img[100], 77);
    assert_eq!(&img[0..4], &[1; 4]);
}
