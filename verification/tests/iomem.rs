use driverkit::iomem::{
    phys_addr, zeroed_region, DmaObject, IOBuf, IOBufChain, IOBufPool, IOMemAllocator, IOMemError,
    Layout, LayoutError, KERNEL_BASE,
};
use std::collections::VecDeque;

fn layout(size: usize, align: usize) -> Layout {
    Layout::from_size_align(size, align).unwrap()
}

fn buf_with(capacity: usize, data: &[u8]) -> IOBuf {
    let mut b = IOBuf::new(layout(capacity, 8)).unwrap();
    b.clear();
    assert_eq!(b.copy_in(data), Ok(data.len().min(capacity)));
    b
}

fn buf_of_len(len: usize) -> IOBuf {
    let mut b = IOBuf::new(layout(128, 8)).unwrap();
    b.truncate(len);
    b
}

#[test]
fn layout_accepts_powers_of_two() {
    let l = layout(2048, 64);
    assert_eq!(l.size(), 2048);
    assert_eq!(l.align(), 64);
    assert!(Layout::from_size_align(0, 1).is_ok());
    assert!(Layout::from_size_align(7, 4096).is_ok());
}

#[test]
fn layout_rejects_bad_alignment() {
    assert_eq!(Layout::from_size_align(16, 0), Err(LayoutError::BadAlignment));
    assert_eq!(Layout::from_size_align(16, 3), Err(LayoutError::BadAlignment));
    assert_eq!(Layout::from_size_align(16, 24), Err(LayoutError::BadAlignment));
}

#[test]
fn layout_rejects_sizes_beyond_isize() {
    let max = isize::MAX as usize;
    assert!(Layout::from_size_align(max, 1).is_ok());
    assert_eq!(Layout::from_size_align(max + 1, 1), Err(LayoutError::TooLarge));
    assert_eq!(Layout::from_size_align(max, 2), Err(LayoutError::TooLarge));
    assert!(Layout::from_size_align(max - 1, 2).is_ok());
}

#[test]
fn arena_rounds_up_to_whole_blocks() {
    let arena = IOMemAllocator::new(layout(64, 8)).unwrap();
    let shape = arena.region_layout(layout(1, 1)).unwrap();
    assert_eq!((shape.size(), shape.align()), (64, 8));
    let shape = arena.region_layout(layout(64, 8)).unwrap();
    assert_eq!((shape.size(), shape.align()), (64, 8));
    let shape = arena.region_layout(layout(65, 16)).unwrap();
    assert_eq!((shape.size(), shape.align()), (128, 16));
    let shape = arena.region_layout(layout(200, 4)).unwrap();
    assert_eq!((shape.size(), shape.align()), (256, 8));
    let shape = arena.region_layout(layout(0, 32)).unwrap();
    assert_eq!((shape.size(), shape.align()), (0, 32));
}

#[test]
fn arena_of_empty_blocks_grants_only_the_empty_region() {
    let arena = IOMemAllocator::new(layout(0, 8)).unwrap();
    assert!(arena.region_layout(layout(1, 1)).is_none());
    assert_eq!(arena.allocate(layout(1, 1)), Err(IOMemError::OutOfMemory));
    assert_eq!(arena.allocate(layout(0, 1)), Ok(vec![]));
}

#[test]
fn arena_refuses_regions_too_large_to_exist() {
    let arena = IOMemAllocator::new(layout(4096, 8)).unwrap();
    let huge = layout(isize::MAX as usize - 7, 8);
    assert!(arena.region_layout(huge).is_none());
    assert_eq!(arena.allocate(huge), Err(IOMemError::OutOfMemory));
}

#[test]
fn arena_grants_zeroed_regions() {
    let arena = IOMemAllocator::new(layout(16, 8)).unwrap();
    let region = arena.allocate(layout(20, 8)).unwrap();
    assert_eq!(region, vec![0u8; 32]);
}

#[test]
fn zeroed_region_follows_the_reservation() {
    assert_eq!(zeroed_region(Vec::new(), 5, true), Ok(vec![0u8; 5]));
    assert_eq!(zeroed_region(Vec::new(), 5, false), Err(IOMemError::OutOfMemory));
    assert_eq!(zeroed_region(Vec::new(), 0, true), Ok(vec![]));
}

#[test]
fn new_buffer_is_zeroed_and_full() {
    let b = IOBuf::new(layout(2048, 2048)).unwrap();
    assert_eq!(b.capacity(), 2048);
    assert_eq!(b.len(), 2048);
    assert!(b.as_slice().iter().all(|&x| x == 0));
    let empty = IOBuf::new(layout(0, 1)).unwrap();
    assert_eq!((empty.capacity(), empty.len()), (0, 0));
}

#[test]
fn truncate_clear_and_expand() {
    let mut b = buf_with(8, &[1, 2, 3, 4, 5]);
    assert_eq!(b.as_slice(), &[1, 2, 3, 4, 5]);
    b.truncate(7);
    assert_eq!(b.len(), 5);
    b.truncate(3);
    assert_eq!(b.as_slice(), &[1, 2, 3]);
    b.expand();
    assert_eq!(b.as_slice(), &[1, 2, 3, 0, 0, 0, 0, 0]);
    assert_eq!(b.capacity(), 8);
    b.clear();
    assert_eq!(b.len(), 0);
    assert_eq!(b.capacity(), 8);
    b.expand();
    assert_eq!(b.as_slice(), &[0u8; 8]);
}

#[test]
fn copy_in_at_stays_within_the_capacity() {
    for offset in 0..=8usize {
        for n in 0..12usize {
            let src: Vec<u8> = (1..=n as u8).collect();
            let mut b = buf_with(8, &[9, 9, 9]);
            let cnt = b.copy_in_at(offset, &src).unwrap();
            assert_eq!(cnt, n.min(8 - offset));
            assert!(offset + cnt <= b.capacity());
            let mut want = vec![9u8, 9, 9];
            if want.len() < offset + cnt {
                want.resize(offset + cnt, 0);
            }
            want[offset..offset + cnt].copy_from_slice(&src[..cnt]);
            assert_eq!(b.as_slice(), &want[..]);
            assert_eq!(b.capacity(), 8);
        }
    }
}

#[test]
fn copy_in_at_grows_the_buffer_to_hold_the_copy() {
    let mut b = buf_with(16, &[]);
    assert_eq!(b.copy_in(&[7, 8, 9]), Ok(3));
    assert_eq!(b.as_slice(), &[7, 8, 9]);
    assert_eq!(b.copy_in_at(5, &[1]), Ok(1));
    assert_eq!(b.as_slice(), &[7, 8, 9, 0, 0, 1]);
    assert_eq!(b.copy_in_at(16, &[1, 2]), Ok(0));
    assert_eq!(b.as_slice(), &[7, 8, 9, 0, 0, 1, 0, 0, 0, 0, 0, 0, 0, 0, 0, 0]);
    assert_eq!(b.len(), 16);
}

#[test]
fn copy_in_at_keeps_the_bytes_behind_the_copy() {
    let mut b = buf_with(16, &[1, 2, 3, 4, 5, 6]);
    assert_eq!(b.copy_in_at(1, &[8, 9]), Ok(2));
    assert_eq!(b.as_slice(), &[1, 8, 9, 4, 5, 6]);
    assert_eq!(b.copy_in(&[7]), Ok(1));
    assert_eq!(b.as_slice(), &[7, 8, 9, 4, 5, 6]);
    assert_eq!(b.copy_in_at(3, &[]), Ok(0));
    assert_eq!(b.as_slice(), &[7, 8, 9, 4, 5, 6]);
    let mut full = IOBuf::new(layout(4, 4)).unwrap();
    assert_eq!(full.copy_in(&[5]), Ok(1));
    assert_eq!(full.as_slice(), &[5, 0, 0, 0]);
}

#[test]
fn copy_in_cuts_a_source_that_is_too_long() {
    let mut b = IOBuf::new(layout(4, 4)).unwrap();
    assert_eq!(b.copy_in(&[1, 2, 3, 4, 5, 6]), Ok(4));
    assert_eq!(b.as_slice(), &[1, 2, 3, 4]);
    assert_eq!(b.copy_in_at(3, &[8, 9]), Ok(1));
    assert_eq!(b.as_slice(), &[1, 2, 3, 8]);
}

#[test]
fn copy_out_at_reads_what_is_there() {
    let b = buf_with(16, &[10, 11, 12, 13, 14]);
    let mut dst = [0xffu8; 3];
    assert_eq!(b.copy_out_at(1, &mut dst), Ok(3));
    assert_eq!(dst, [11, 12, 13]);
    let mut dst = [0xffu8; 8];
    assert_eq!(b.copy_out_at(3, &mut dst), Ok(2));
    assert_eq!(dst, [13, 14, 0xff, 0xff, 0xff, 0xff, 0xff, 0xff]);
    let mut dst = [0xffu8; 8];
    assert_eq!(b.copy_out(&mut dst), Ok(5));
    assert_eq!(dst, [10, 11, 12, 13, 14, 0xff, 0xff, 0xff]);
}

#[test]
fn copy_out_at_past_the_end_copies_nothing() {
    let b = buf_with(16, &[1, 2, 3]);
    let mut dst = [0xffu8; 4];
    assert_eq!(b.copy_out_at(3, &mut dst), Ok(0));
    assert_eq!(b.copy_out_at(4, &mut dst), Ok(0));
    assert_eq!(b.copy_out_at(usize::MAX, &mut dst), Ok(0));
    assert_eq!(dst, [0xff; 4]);
    let mut none: [u8; 0] = [];
    assert_eq!(b.copy_out_at(0, &mut none), Ok(0));
}

#[test]
fn copy_out_at_matches_the_content_for_all_offsets() {
    let data: Vec<u8> = (0..10).collect();
    let b = buf_with(16, &data);
    for offset in 0..14usize {
        for room in 0..14usize {
            let mut dst = vec![0xeeu8; room];
            let cnt = b.copy_out_at(offset, &mut dst).unwrap();
            let want = if offset >= 10 { 0 } else { (10 - offset).min(room) };
            assert_eq!(cnt, want);
            assert_eq!(&dst[..cnt], &data[offset.min(10)..offset.min(10) + cnt]);
            assert!(dst[cnt..].iter().all(|&x| x == 0xee));
        }
    }
}

#[test]
fn buffer_index_reads_single_bytes() {
    let b = buf_with(8, &[5, 6, 7]);
    assert_eq!(b[0], 5);
    assert_eq!(b[1], 6);
    assert_eq!(b[2], 7);
    assert_eq!(b.len(), 3);
}

#[test]
fn as_mut_slice_changes_bytes_in_place() {
    let mut b = buf_with(8, &[1, 2, 3]);
    b.as_mut_slice()[1] = 42;
    assert_eq!(b.as_slice(), &[1, 42, 3]);
    assert_eq!(b.len(), 3);
    assert_eq!(b[1], 42);
}

#[test]
fn physical_address_is_the_virtual_one_less_the_offset() {
    assert_eq!(KERNEL_BASE, 0x4000_0000_0000);
    assert_eq!(phys_addr(KERNEL_BASE), Some(0));
    assert_eq!(phys_addr(KERNEL_BASE + 0x1234), Some(0x1234));
    assert_eq!(phys_addr(u64::MAX), Some(u64::MAX - KERNEL_BASE));
    assert_eq!(phys_addr(KERNEL_BASE - 1), None);
    assert_eq!(phys_addr(0), None);
}

#[test]
fn buffer_addresses_agree() {
    let b = IOBuf::new(layout(64, 8)).unwrap();
    let v = b.vaddr();
    assert_eq!(v, b.as_slice().as_ptr() as u64);
    assert_eq!(b.paddr(), phys_addr(v));
    assert_eq!(b.ioaddr(), b.paddr());
}

#[test]
fn pool_starts_empty_and_allocates() {
    let mut pool = IOBufPool::new(256, 64).unwrap();
    assert_eq!(pool.available(), 0);
    assert_eq!(pool.layout().size(), 256);
    assert_eq!(pool.layout().align(), 64);
    let b = pool.get_buf().unwrap();
    assert_eq!((b.capacity(), b.len()), (256, 256));
    assert!(b.as_slice().iter().all(|&x| x == 0));
    assert_eq!(pool.available(), 0);
}

#[test]
fn pool_hands_out_what_was_put_last_first() {
    let mut pool = IOBufPool::new(32, 8).unwrap();
    let n = 5usize;
    let m = 3usize;
    let mut addrs = Vec::new();
    for i in 0..n {
        let mut b = IOBuf::new(layout(32, 8)).unwrap();
        b.clear();
        b.copy_in(&[i as u8 + 1]).unwrap();
        addrs.push(b.vaddr());
        pool.put_buf(b);
    }
    assert_eq!(pool.available(), n);
    for k in 0..m {
        let b = pool.get_buf().unwrap();
        assert_eq!(b.vaddr(), addrs[n - 1 - k]);
        assert_eq!(b.len(), 32);
        assert_eq!(b.capacity(), 32);
        assert!(b.as_slice().iter().all(|&x| x == 0));
        assert_eq!(pool.available(), n - 1 - k);
    }
}

#[test]
fn pool_returns_a_filled_buffer_fully_zeroed() {
    let mut pool = IOBufPool::new(64, 64).unwrap();
    let mut b = pool.get_buf().unwrap();
    assert_eq!(b.copy_in(&[0xaa; 64]), Ok(64));
    let addr = b.vaddr();
    pool.put_buf(b);
    assert_eq!(pool.available(), 1);
    let b = pool.get_buf().unwrap();
    assert_eq!(b.vaddr(), addr);
    assert_eq!(b.as_slice(), &[0u8; 64]);
    assert_eq!(b.capacity(), 64);
    assert_eq!(pool.available(), 0);
}

#[test]
fn pool_zeroes_buffers_of_any_length() {
    let mut pool = IOBufPool::new(8, 8).unwrap();
    let mut b = pool.get_buf().unwrap();
    b.clear();
    b.copy_in(&[1, 2]).unwrap();
    assert_eq!(b.as_slice(), &[1, 2]);
    pool.put_buf(b);
    let mut c = pool.get_buf().unwrap();
    assert_eq!(c.as_slice(), &[0u8; 8]);
    c.copy_in(&[0xff; 8]).unwrap();
    c.truncate(3);
    pool.put_buf(c);
    let mut d = pool.get_buf().unwrap();
    assert_eq!(d.as_slice(), &[0u8; 8]);
    d.copy_in(&[7; 8]).unwrap();
    d.clear();
    pool.put_buf(d);
    assert_eq!(pool.get_buf().unwrap().as_slice(), &[0u8; 8]);
}

#[test]
fn new_chain_is_empty() {
    let c = IOBufChain::new(7, 4).unwrap();
    assert_eq!(c.flags, 7);
    assert_eq!(c.cqidx, 0);
    assert_eq!(c.csum_flags, 0);
    assert_eq!(c.csum_data, 0);
    assert_eq!(c.vtag, None);
    assert_eq!(c.rss_flow_id, None);
    assert_eq!(c.rss_type, 0);
    assert_eq!(c.segments.len(), 0);
    assert_eq!(c.index(0).err(), Some(IOMemError::OutOfRange));
}

#[test]
fn chain_from_reserved_follows_the_reservation() {
    let c = IOBufChain::from_reserved(3, VecDeque::new(), true).unwrap();
    assert_eq!((c.flags, c.segments.len()), (3, 0));
    let e = IOBufChain::from_reserved(3, VecDeque::new(), false).err();
    assert_eq!(e, Some(IOMemError::OutOfMemory));
}

#[test]
fn chain_new_reports_out_of_memory() {
    let r = IOBufChain::new(0, usize::MAX);
    assert_eq!(r.err(), Some(IOMemError::OutOfMemory));
}

#[test]
fn append_keeps_the_order() {
    let mut c = IOBufChain::new(0, 2).unwrap();
    c.append(buf_with(8, &[1, 2]));
    c.append(buf_with(8, &[]));
    c.append(buf_with(8, &[3]));
    assert_eq!(c.segments.len(), 3);
    assert_eq!(c.segments[0].as_slice(), &[1, 2]);
    assert_eq!(c.segments[1].len(), 0);
    assert_eq!(c.segments[2].as_slice(), &[3]);
}

#[test]
fn chain_index_walks_the_fragments() {
    let mut c = IOBufChain::new(0, 3).unwrap();
    c.append(buf_with(8, &[10, 11, 12]));
    c.append(buf_with(8, &[]));
    c.append(buf_with(8, &[13]));
    c.append(buf_with(8, &[14, 15]));
    let want = [10u8, 11, 12, 13, 14, 15];
    for (i, w) in want.iter().enumerate() {
        assert_eq!(c.index(i).map(|b| *b), Ok(*w));
    }
    assert_eq!(c.index(6).err(), Some(IOMemError::OutOfRange));
    assert_eq!(c.index(usize::MAX).err(), Some(IOMemError::OutOfRange));
}

#[test]
fn chain_index_in_a_later_fragment_that_is_longer() {
    let mut c = IOBufChain::new(0, 2).unwrap();
    c.append(buf_with(8, &[1]));
    c.append(buf_with(8, &[2, 3, 4, 5]));
    assert_eq!(c.index(1).map(|b| *b), Ok(2));
    assert_eq!(c.index(4).map(|b| *b), Ok(5));
    assert_eq!(c.index(5).err(), Some(IOMemError::OutOfRange));
}

fn chain_of_lengths(lens: &[usize]) -> IOBufChain {
    let mut c = IOBufChain::new(0, lens.len()).unwrap();
    for &l in lens {
        c.append(buf_of_len(l));
    }
    c
}

#[test]
fn set_meta_data_cuts_the_unused_fragments() {
    let mut c = chain_of_lengths(&[100, 50, 0, 30]);
    c.csum_flags = 5;
    c.vtag = Some(9);
    assert!(c.check_meta_data(150, 2));
    c.set_meta_data(150, 2, 17, Some(4), 0x82);
    let lens: Vec<usize> = c.segments.iter().map(|s| s.len()).collect();
    assert_eq!(lens, vec![100, 50, 0, 0]);
    assert_eq!(lens.iter().sum::<usize>(), 150);
    assert_eq!(lens.iter().filter(|&&l| l > 0).count(), 2);
    assert!(c.segments.iter().all(|s| s.capacity() == 128));
    assert_eq!(c.cqidx, 17);
    assert_eq!(c.rss_flow_id, Some(4));
    assert_eq!(c.rss_type, 0x82);
    assert_eq!(c.csum_flags, 5);
    assert_eq!(c.vtag, Some(9));
    assert_eq!(c.flags, 0);
}

#[test]
fn meta_data_with_a_wrong_segment_count_does_not_fit() {
    let c = chain_of_lengths(&[100, 50, 0, 30]);
    assert!(!c.check_meta_data(150, 3));
    assert!(!c.check_meta_data(150, 1));
    assert!(!c.check_meta_data(150, 4));
    assert!(c.check_meta_data(150, 2));
}

#[test]
fn meta_data_must_end_at_a_fragment_border() {
    let c = chain_of_lengths(&[100, 50, 0, 30]);
    assert!(!c.check_meta_data(120, 2));
    assert!(!c.check_meta_data(99, 1));
    assert!(c.check_meta_data(100, 1));
    assert!(c.check_meta_data(180, 4));
    assert!(!c.check_meta_data(181, 4));
    assert!(!c.check_meta_data(180, 3));
    assert!(c.check_meta_data(0, 0));
    assert!(!c.check_meta_data(0, 1));
}

#[test]
fn set_meta_data_counts_empty_fragments_before_the_end() {
    let mut c = chain_of_lengths(&[10, 0, 5, 7]);
    assert!(c.check_meta_data(15, 3));
    assert!(!c.check_meta_data(15, 2));
    c.set_meta_data(15, 3, 0, None, 0);
    let lens: Vec<usize> = c.segments.iter().map(|s| s.len()).collect();
    assert_eq!(lens, vec![10, 0, 5, 0]);
}

#[test]
fn set_meta_data_with_nothing_received_empties_the_chain() {
    let mut c = chain_of_lengths(&[4, 4]);
    assert!(c.check_meta_data(0, 0));
    c.set_meta_data(0, 0, 1, None, 0);
    assert!(c.segments.iter().all(|s| s.len() == 0));
    assert_eq!(c.segments.len(), 2);
    let mut none = chain_of_lengths(&[]);
    assert!(none.check_meta_data(0, 0));
    assert!(!none.check_meta_data(1, 0));
    none.set_meta_data(0, 0, 2, Some(1), 3);
    assert_eq!((none.cqidx, none.rss_flow_id, none.rss_type), (2, Some(1), 3));
}

#[test]
fn set_meta_data_keeps_the_received_bytes() {
    let mut c = IOBufChain::new(0, 3).unwrap();
    c.append(buf_with(8, &[1, 2, 3]));
    c.append(buf_with(8, &[4, 5]));
    c.append(buf_with(8, &[6]));
    c.set_meta_data(5, 2, 0, None, 0);
    for i in 0..5 {
        assert_eq!(c.index(i).map(|b| *b), Ok(i as u8 + 1));
    }
    assert_eq!(c.index(5).err(), Some(IOMemError::OutOfRange));
}

#[test]
fn error_messages() {
    assert_eq!(IOMemError::OutOfMemory.message(), "reached out of memory");
    assert_eq!(IOMemError::NotYetImplemented.message(), "feature not yet implemented");
    assert_eq!(IOMemError::OutOfRange.message(), "index out of range");
}
