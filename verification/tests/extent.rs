use memfs::{ByteExtent, WriteMode, ALLOCATION_UNIT, MAX_ALLOCATION};

#[test]
fn new_extent_is_empty_and_zero_filled() {
    let e = ByteExtent::new(10);
    assert_eq!(e.allocation_size(), 10);
    assert_eq!(e.file_size(), 0);
    assert_eq!(e.read(0, 10), &[] as &[u8]);
}

#[test]
fn allocation_unit_is_4096() {
    assert_eq!(ALLOCATION_UNIT, 4096);
    assert_eq!(MAX_ALLOCATION % ALLOCATION_UNIT, 0);
    assert_eq!(memfs::extent::allocation_for(0), 0);
    assert_eq!(memfs::extent::allocation_for(1), 4096);
    assert_eq!(memfs::extent::allocation_for(4096), 4096);
    assert_eq!(memfs::extent::allocation_for(4097), 8192);
    assert_eq!(memfs::extent::allocation_for(MAX_ALLOCATION), MAX_ALLOCATION);
}

#[test]
fn explicit_allocation_is_not_rounded() {
    let mut e = ByteExtent::new(0);
    e.set_allocation_size(1000);
    assert_eq!(e.allocation_size(), 1000);
    assert_eq!(e.file_size(), 0);
}

#[test]
fn shrinking_allocation_cuts_the_file() {
    let mut e = ByteExtent::new(0);
    e.write(&[1, 2, 3, 4, 5, 6], 0);
    e.set_allocation_size(4);
    assert_eq!(e.allocation_size(), 4);
    assert_eq!(e.file_size(), 4);
    assert_eq!(e.read(0, 100), &[1, 2, 3, 4]);
}

#[test]
fn adapt_rounds_up_to_whole_units() {
    let mut e = ByteExtent::new(0);
    e.adapt_allocation_size(5000);
    assert_eq!(e.allocation_size(), 8192);
    e.adapt_allocation_size(0);
    assert_eq!(e.allocation_size(), 0);
    e.adapt_allocation_size(4096);
    assert_eq!(e.allocation_size(), 4096);
}

#[test]
fn set_file_size_grows_the_allocation_by_units() {
    let mut e = ByteExtent::new(100);
    e.set_file_size(50);
    assert_eq!((e.file_size(), e.allocation_size()), (50, 100));
    e.set_file_size(101);
    assert_eq!((e.file_size(), e.allocation_size()), (101, 4096));
    assert_eq!(e.read(0, 101), vec![0u8; 101].as_slice());
}

#[test]
fn set_file_size_erases_what_it_cuts_off() {
    let mut e = ByteExtent::new(0);
    e.write(&[9, 9, 9, 9], 0);
    e.set_file_size(2);
    assert_eq!(e.allocation_size(), 4096);
    e.set_file_size(4);
    assert_eq!(e.read(0, 4), &[9, 9, 0, 0]);
}

#[test]
fn read_stops_at_the_end_of_the_file() {
    let mut e = ByteExtent::new(0);
    e.write(&[1, 2, 3, 4, 5], 0);
    assert_eq!(e.read(1, 2), &[2, 3]);
    assert_eq!(e.read(3, 100), &[4, 5]);
    assert_eq!(e.read(5, 1), &[] as &[u8]);
    assert_eq!(e.read(6, 1), &[] as &[u8]);
    assert_eq!(e.read(0, usize::MAX), &[1, 2, 3, 4, 5]);
    assert_eq!(e.read(0, 0), &[] as &[u8]);
}

#[test]
fn normal_write_past_the_end_fills_the_gap_with_zeros() {
    let mut e = ByteExtent::new(0);
    e.write(&[1, 2], 0);
    let n = e.write(&[7, 8], 5);
    assert_eq!(n, 2);
    assert_eq!(e.file_size(), 7);
    assert_eq!(e.read(0, 7), &[1, 2, 0, 0, 0, 7, 8]);
}

#[test]
fn write_beyond_allocation_rounds_to_the_least_multiple() {
    let mut e = ByteExtent::new(0);
    assert_eq!(e.write(&vec![1u8; 5000], 0), 5000);
    assert_eq!(e.file_size(), 5000);
    assert_eq!(e.allocation_size(), 8192);
    assert_eq!(e.write(&[1], 8192), 1);
    assert_eq!(e.file_size(), 8193);
    assert_eq!(e.allocation_size(), 12288);
}

#[test]
fn write_within_allocation_keeps_it() {
    let mut e = ByteExtent::new(0);
    e.set_allocation_size(1000);
    e.write(&[1, 2, 3], 10);
    assert_eq!(e.allocation_size(), 1000);
    assert_eq!(e.file_size(), 13);
}

#[test]
fn append_writes_at_the_end() {
    let mut e = ByteExtent::new(0);
    e.write_in(&[1, 2, 3], WriteMode::WriteToEOF);
    let n = e.write_in(&[4, 5], WriteMode::WriteToEOF);
    assert_eq!(n, 2);
    assert_eq!(e.read(0, 10), &[1, 2, 3, 4, 5]);
}

#[test]
fn constrained_write_never_grows() {
    let mut e = ByteExtent::new(0);
    e.write(&[1, 2, 3, 4], 0);
    let allocation = e.allocation_size();
    assert_eq!(e.constrained_write(&[9, 9, 9], 2), 2);
    assert_eq!(e.file_size(), 4);
    assert_eq!(e.allocation_size(), allocation);
    assert_eq!(e.read(0, 10), &[1, 2, 9, 9]);
    assert_eq!(e.constrained_write(&[5], 4), 0);
    assert_eq!(e.constrained_write(&[5], 100), 0);
    assert_eq!(e.write_in(&[6, 6], WriteMode::ConstrainedIO { offset: 3 }), 1);
    assert_eq!(e.write_in(&[6], WriteMode::ConstrainedIO { offset: u64::MAX }), 0);
    assert_eq!(e.file_size(), 4);
    assert_eq!(e.read(0, 10), &[1, 2, 9, 6]);
}

#[test]
fn constrained_write_shorter_than_the_room() {
    let mut e = ByteExtent::new(0);
    e.write(&[0; 10], 0);
    assert_eq!(e.constrained_write(&[1, 2], 3), 2);
    assert_eq!(e.read(0, 10), &[0, 0, 0, 1, 2, 0, 0, 0, 0, 0]);
}

#[test]
fn write_then_read_round_trip() {
    let data: Vec<u8> = (0..=255u8).cycle().take(10_000).collect();
    let mut e = ByteExtent::new(0);
    assert_eq!(e.write(&data, 0), data.len());
    assert_eq!(e.read(0, data.len()), data.as_slice());
    let mut f = ByteExtent::new(0);
    assert_eq!(f.write(&data, 77), data.len());
    assert_eq!(f.read(77, data.len()), data.as_slice());
}

#[test]
fn size_stays_within_allocation_through_a_run_of_changes() {
    let mut e = ByteExtent::new(3);
    let check = |e: &ByteExtent| assert!(e.file_size() <= e.allocation_size());
    check(&e);
    e.write(&[1; 10], 0);
    check(&e);
    e.set_allocation_size(5);
    check(&e);
    e.set_file_size(9000);
    check(&e);
    e.write_in(&[2; 100], WriteMode::WriteToEOF);
    check(&e);
    e.set_allocation_size(0);
    check(&e);
    assert_eq!(e.file_size(), 0);
    e.write_in(&[3; 3], WriteMode::ConstrainedIO { offset: 0 });
    check(&e);
    e.write_in(&[4; 4097], WriteMode::Normal { offset: 1 });
    check(&e);
    assert_eq!((e.file_size(), e.allocation_size()), (4098, 8192));
}

#[test]
fn empty_write_past_the_end_extends_the_file() {
    let mut e = ByteExtent::new(0);
    assert_eq!(e.write(&[], 10), 0);
    assert_eq!(e.file_size(), 10);
    assert_eq!(e.allocation_size(), 4096);
}
