use driverkit::mem::{
    frame_address, huge_page_flag, is_page_size, pagemap_offset, pin_result, AllocError, FOUR_KIB,
    MAP_HUGE_1GB, MAP_HUGE_2MB, MAP_HUGE_SHIFT, ONE_GIB, PAGEMAP_ENTRY_SIZE, PAGESIZE, TWO_MIB,
};

#[test]
fn page_sizes() {
    assert_eq!(FOUR_KIB, 4096);
    assert_eq!(TWO_MIB, 2 * 1024 * 1024);
    assert_eq!(ONE_GIB, 1024 * 1024 * 1024);
    assert!(is_page_size(FOUR_KIB));
    assert!(is_page_size(TWO_MIB));
    assert!(is_page_size(ONE_GIB));
    assert!(!is_page_size(0));
    assert!(!is_page_size(FOUR_KIB + 1));
    assert!(!is_page_size(2 * FOUR_KIB));
}

#[test]
fn huge_page_flags() {
    assert_eq!(MAP_HUGE_2MB, 21 << MAP_HUGE_SHIFT);
    assert_eq!(MAP_HUGE_1GB, 30 << MAP_HUGE_SHIFT);
    assert_eq!(huge_page_flag(FOUR_KIB), None);
    assert_eq!(huge_page_flag(TWO_MIB), Some(MAP_HUGE_2MB));
    assert_eq!(huge_page_flag(ONE_GIB), Some(MAP_HUGE_1GB));
    assert_eq!(huge_page_flag(12345), None);
}

#[test]
fn pinning() {
    assert_eq!(pin_result(0), Ok(()));
    assert_eq!(pin_result(-1), Err(AllocError::Pin));
    assert_ne!(AllocError::Mapping, AllocError::Pin);
}

#[test]
fn page_map_offsets() {
    assert_eq!(PAGESIZE, 4096);
    assert_eq!(PAGEMAP_ENTRY_SIZE, 8);
    assert_eq!(pagemap_offset(0), 0);
    assert_eq!(pagemap_offset(4096), 8);
    assert_eq!(pagemap_offset(0x7f00_0000_0000), 0x7f00_0000_0000 / 512);
    assert_eq!(pagemap_offset(u64::MAX - 4095), (u64::MAX / 4096) * 8);
}

#[test]
fn page_map_entries() {
    assert_eq!(frame_address(0), None);
    assert_eq!(frame_address(0x1234), None);
    assert_eq!(frame_address(1 << 63), Some(0));
    assert_eq!(frame_address((1 << 63) | 0x1234), Some(0x1234 * 4096));
    assert_eq!(frame_address((1 << 63) | (1 << 55) | 7), Some(7 * 4096));
    assert_eq!(frame_address((1 << 63) | (1 << 62) | 1), Some(4096));
    let top = (1u64 << 52) - 1;
    assert_eq!(frame_address((1 << 63) | top), Some(top * 4096));
    assert_eq!(frame_address((1 << 63) | (1 << 52)), None);
    assert_eq!(frame_address(u64::MAX), None);
}
