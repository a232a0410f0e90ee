use pmem::pmap::PersistentMap;
use pmem::ptr::PmemMutVirtualPtr;

#[test]
fn create_yields_zeroed_region() {
    let map = PersistentMap::create(1024, 0, true);
    assert_eq!(map.len(), 1024);
    assert!(map.as_bytes().iter().all(|b| *b == 0));
    // and the zeroes are already durable
    assert!(map.crash_image().iter().all(|b| *b == 0));
}

#[test]
fn create_tmp_behaves_like_create() {
    let map = PersistentMap::create_tmp(512, 0x100, false);
    assert_eq!(map.len(), 512);
    assert!(!map.is_pmem());
    assert!(map.as_bytes().iter().all(|b| *b == 0));
}

#[test]
fn open_reads_existing_contents() {
    let mut contents = vec![0u8; 256];
    contents[17] = 200;
    contents[255] = 9;
    let map = PersistentMap::open(contents, 0x2000, true);
    assert_eq!(map.len(), 256);
    assert_eq!(map.as_bytes()[17], 200);
    assert_eq!(map.as_bytes()[255], 9);
    assert_eq!(map.crash_image()[17], 200);
}

#[test]
fn open_or_create_prefers_existing() {
    let existing = vec![5u8; 32];
    let m = PersistentMap::open_or_create(Some(existing), 99, 0, true);
    assert_eq!(m.len(), 32);
    assert_eq!(m.as_bytes()[0], 5);
    let m2 = PersistentMap::open_or_create(None, 99, 0, false);
    assert_eq!(m2.len(), 99);
    assert_eq!(m2.as_bytes()[98], 0);
}

#[test]
fn capability_flag_is_stable_across_writes() {
    let mut map = PersistentMap::create(256, 0, true);
    assert!(map.is_pmem());
    pmem::ptr::write_bytes::<u8>(&mut map, 0, 1, 256);
    assert!(map.is_pmem());
    map.deferred_write(5, &[9]);
    pmem::drain(&mut map);
    assert!(map.is_pmem());
    let _ = pmem::msync(&mut map);
    assert!(map.is_pmem());

    let mut other = PersistentMap::create(256, 0, false);
    assert!(!other.is_pmem());
    pmem::ptr::write_bytes::<u8>(&mut other, 0, 7, 256);
    assert!(!other.is_pmem());
}

#[test]
fn store_and_read_back_a_record() {
    // a 10 MiB backing store, one 64-byte record at pool offset 0
    let mut map = PersistentMap::create(10 * 1024 * 1024, 0x5000_0000, true);
    let v: PmemMutVirtualPtr<[u8; 64]> = PmemMutVirtualPtr::new(1, 0);
    let mut value = [0u8; 64];
    for (i, b) in value.iter_mut().enumerate() {
        *b = (i as u8) ^ 0xa5;
    }
    pmem::ptr::write::<[u8; 64]>(&mut map, 0, &value);
    let d = v.link(&map);
    let off = d.direct() - map.base;
    let got = map.read_bytes(off, 64);
    assert_eq!(got.as_slice(), &value[..]);
}

#[test]
fn zero_fill_reads_back_as_zeroes() {
    let mut map = PersistentMap::create(16 * 1024, 100, false);
    pmem::ptr::write_bytes::<u8>(&mut map, 0, 0xff, 16 * 1024);
    pmem::ptr::write_bytes::<u8>(&mut map, 512, 0, 4096);
    let bytes = map.read_bytes(512, 4096);
    assert_eq!(bytes.len(), 4096);
    assert!(bytes.iter().all(|b| *b == 0));
    // the fill stayed inside its range
    assert_eq!(map.as_bytes()[511], 0xff);
    assert_eq!(map.as_bytes()[512 + 4096], 0xff);
}

#[test]
fn copy_handles_overlapping_ranges() {
    let mut map = PersistentMap::create(64, 0, true);
    pmem::ptr::write::<[u8; 8]>(&mut map, 0, &[1, 2, 3, 4, 5, 6, 7, 8]);
    pmem::ptr::copy::<u8>(&mut map, 0, 4, 8);
    assert_eq!(map.read_bytes(4, 8).as_slice(), &[1, 2, 3, 4, 5, 6, 7, 8]);
    assert_eq!(map.read_bytes(0, 4).as_slice(), &[1, 2, 3, 4]);
}

#[test]
fn copy_nonoverlapping_copies_elements() {
    let mut map = PersistentMap::create(64, 0, true);
    pmem::ptr::write::<[u8; 8]>(&mut map, 0, &[10, 20, 30, 40, 50, 60, 70, 80]);
    pmem::ptr::copy_nonoverlapping::<u32>(&mut map, 0, 32, 2);
    assert_eq!(map.read_bytes(32, 8).as_slice(), &[10, 20, 30, 40, 50, 60, 70, 80]);
}

#[test]
fn typed_cells_over_the_map() {
    let mut map = PersistentMap::create(1024, 0x4000, true);
    let value = 0x1122_3344_5566_7788u64.to_le_bytes();
    let c = map.write::<u64>(64, &value);
    assert_eq!(c.addr(), map.base + 64);
    assert_eq!(map.read_bytes(64, 8).as_slice(), &value[..]);

    let z = map.zeroed::<u32>(64);
    assert_eq!(z.addr(), map.base + 64);
    assert_eq!(map.read_bytes(64, 8).as_slice(), &[0, 0, 0, 0, value[4], value[5], value[6], value[7]]);

    let u: pmem::cell::PmemCell<u16> = map.uninitialized(70);
    assert_eq!(u.addr(), map.base + 70);
    // an uninitialized cell leaves the bytes exactly as they were
    assert_eq!(map.read_bytes(70, 2).as_slice(), &[value[6], value[7]]);
}

#[test]
fn reference_cells_carry_addresses() {
    let r = pmem::cell::PmemRef::<u64>::new(0xbeef);
    assert_eq!(r.addr(), 0xbeef);
    let m = pmem::cell::PmemMutRef::<u64>::new(0xf00d);
    assert_eq!(m.addr(), 0xf00d);
    let shared = m.as_ref();
    assert_eq!(shared.addr(), 0xf00d);
}
