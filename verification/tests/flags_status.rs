use pmem::blk::{check_status, CheckOutcome};
use pmem::pmap::{CreationFlags, FILE_CREATE, FILE_EXCL, FILE_SPARSE, FILE_TMPFILE};

#[test]
fn creation_flag_bits_match_their_constants() {
    assert_eq!(CreationFlags::empty().bits(), 0);
    assert_eq!(CreationFlags::for_create(false).bits(), FILE_CREATE | FILE_EXCL);
    assert_eq!(
        CreationFlags::for_create(true).bits(),
        FILE_CREATE | FILE_EXCL | FILE_SPARSE
    );
    assert_eq!(CreationFlags::for_create_tmp(false).bits(), FILE_TMPFILE | FILE_EXCL);
    assert_eq!(
        CreationFlags::for_create_tmp(true).bits(),
        FILE_TMPFILE | FILE_EXCL | FILE_SPARSE
    );
    assert_eq!(CreationFlags::for_open_or_create(false).bits(), FILE_CREATE);
    assert_eq!(
        CreationFlags::for_open_or_create(true).bits(),
        FILE_CREATE | FILE_SPARSE
    );
}

#[test]
fn flag_constants_are_distinct_bits() {
    let all = [FILE_CREATE, FILE_EXCL, FILE_SPARSE, FILE_TMPFILE];
    for (i, a) in all.iter().enumerate() {
        assert_eq!(a.count_ones(), 1);
        for b in all.iter().skip(i + 1) {
            assert_eq!(a & b, 0);
        }
    }
}

#[test]
fn check_status_interprets_every_code() {
    assert_eq!(check_status(1), CheckOutcome::Consistent);
    assert_eq!(check_status(0), CheckOutcome::Inconsistent);
    assert_eq!(check_status(-1), CheckOutcome::OsError);
    assert_eq!(check_status(7), CheckOutcome::Unexpected);
    assert_eq!(check_status(-2), CheckOutcome::Unexpected);
}

#[test]
fn sync_error_carries_its_code() {
    let e = pmem::SyncError { errno: 28 };
    assert_eq!(e.errno, 28);
    assert_eq!(e, pmem::SyncError { errno: 28 });
}
