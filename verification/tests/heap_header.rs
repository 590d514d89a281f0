use garage_backup_sensor::heap_header::{
    header_size, plan_allocation, plan_release, size_header, STORAGE_SIZE_BYTES,
};

#[test]
fn header_is_little_endian() {
    assert_eq!(size_header(0x1234), [0x34, 0x12]);
    assert_eq!(size_header(0), [0, 0]);
    assert_eq!(size_header(65535), [0xff, 0xff]);
    assert_eq!(size_header(300), 300u16.to_le_bytes());
}

#[test]
fn header_reads_back() {
    assert_eq!(header_size([0x34, 0x12]), 0x1234);
    for size in [0u16, 1, 255, 256, 1000, 65534, 65535] {
        assert_eq!(header_size(size_header(size)), size);
    }
}

#[test]
fn allocation_plan_for_small_request() {
    let plan = plan_allocation(100).unwrap();
    assert_eq!(plan.header, [100, 0]);
    assert_eq!(plan.block_size, 102);
    assert_eq!(plan.user_offset, 2);
    assert_eq!(STORAGE_SIZE_BYTES, 2);
}

#[test]
fn release_plan_covers_header() {
    let release = plan_release([100, 0]);
    assert_eq!(release.header_offset, 2);
    assert_eq!(release.block_size, 102);
    assert_eq!(plan_release([0xff, 0xff]).block_size, 65537);
}

#[test]
fn allocation_plan_limits() {
    assert!(plan_allocation(65535).is_some());
    assert_eq!(plan_allocation(65535).unwrap().block_size, 65537);
    assert!(plan_allocation(65536).is_none());
    assert!(plan_allocation(usize::MAX).is_none());
    assert_eq!(plan_allocation(0).unwrap().block_size, 2);
}

#[test]
fn release_finds_what_allocation_wrote() {
    for size in [0usize, 1, 513, 4096, 65535] {
        let alloc = plan_allocation(size).unwrap();
        let release = plan_release(alloc.header);
        assert_eq!(release.header_offset, alloc.user_offset);
        assert_eq!(release.block_size, alloc.block_size);
        assert_eq!(release.block_size, size + STORAGE_SIZE_BYTES);
    }
}
