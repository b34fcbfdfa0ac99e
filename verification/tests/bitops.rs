use driverkit::bitops::{bits_get, bits_set, bits_set_16};

#[test]
fn bits_set_from_to() {
    for from in 0..32 {
        for to in from..32 {
            let mut r: u32 = 0;
            let all_ones: usize = (1 << (to - from + 1)) - 1;

            bits_set(&mut r, from, to, all_ones as u32);

            for check in 0..32 {
                if check >= from && check <= to {
                    assert!(r & (1 << check) > 0);
                } else {
                    assert!(!(r & (1 << check) > 0));
                }
            }

            assert!(bits_get(r, from, to) == all_ones as u32);
        }
    }
}

#[test]
fn bits_get_reads_the_range() {
    assert_eq!(bits_get(0xdead_beef, 0, 31), 0xdead_beef);
    assert_eq!(bits_get(0xdead_beef, 0, 15), 0xbeef);
    assert_eq!(bits_get(0xdead_beef, 16, 31), 0xdead);
    assert_eq!(bits_get(0xdead_beef, 4, 7), 0xe);
    assert_eq!(bits_get(0x8000_0000, 31, 31), 1);
    assert_eq!(bits_get(0x7fff_ffff, 31, 31), 0);
    assert_eq!(bits_get(0b1010, 1, 1), 1);
}

#[test]
fn bits_set_round_trips_and_keeps_the_rest() {
    for from in 0..32usize {
        for to in from..32usize {
            let width = to - from + 1;
            let fits: u32 = if width == 32 { u32::MAX } else { (1u32 << width) - 1 };
            for &start in &[0u32, u32::MAX, 0xa5a5_5a5a, 0x1234_5678] {
                for &bits in &[0u32, 1, 0x5555_5555, 0xffff_ffff, 0x8000_0001] {
                    let mut r = start;
                    bits_set(&mut r, from, to, bits);
                    assert_eq!(bits_get(r, from, to), bits & fits);
                    let mask: u32 = fits << from;
                    assert_eq!(r & !mask, start & !mask);
                }
            }
        }
    }
}

#[test]
fn bits_set_leaves_bits_above_the_range() {
    let mut r: u32 = 0xffff_ffff;
    bits_set(&mut r, 4, 7, 0);
    assert_eq!(r, 0xffff_ff0f);
    let mut r: u32 = 0;
    bits_set(&mut r, 8, 11, 0xfff);
    assert_eq!(r, 0x0000_0f00);
}

#[test]
fn bits_set_16_round_trips() {
    for from in 0..16usize {
        for to in from..16usize {
            let width = to - from + 1;
            let fits: u16 = if width == 16 { u16::MAX } else { (1u16 << width) - 1 };
            for &start in &[0u16, u16::MAX, 0xa55a] {
                for &bits in &[0u16, 1, 0x5555, 0xffff] {
                    let mut r = start;
                    bits_set_16(&mut r, from, to, bits);
                    let mask: u16 = fits << from;
                    assert_eq!((r & mask) >> from, bits & fits);
                    assert_eq!(r & !mask, start & !mask);
                }
            }
        }
    }
    let mut r: u16 = 0xffff;
    bits_set_16(&mut r, 4, 7, 0);
    assert_eq!(r, 0xff0f);
}
