use gpio_driver::bits::{get_bit, set_bit};

#[test]
fn set_bit_sets_bit_two() {
    assert_eq!(set_bit(0b0000, 2, true), 0b0100);
}

#[test]
fn set_bit_clears_bit_one() {
    assert_eq!(set_bit(0b1111, 1, false), 0b1101);
}

#[test]
fn get_bit_reads_back_written_flag() {
    let patterns: [u32; 4] = [0x0000_0000, 0xffff_ffff, 0xdead_beef, 0x8000_0001];
    let positions: [u8; 4] = [0, 7, 16, 31];
    for &v in patterns.iter() {
        for &p in positions.iter() {
            assert!(get_bit(set_bit(v, p, true), p));
            assert!(!get_bit(set_bit(v, p, false), p));
        }
    }
}

#[test]
fn set_bit_leaves_other_positions_alone() {
    let v: u32 = 0xdead_beef;
    let written = set_bit(v, 13, true);
    for q in 0u8..32 {
        if q != 13 {
            assert_eq!(get_bit(written, q), get_bit(v, q));
        }
    }
    let cleared = set_bit(v, 5, false);
    for q in 0u8..32 {
        if q != 5 {
            assert_eq!(get_bit(cleared, q), get_bit(v, q));
        }
    }
}

#[test]
fn set_bit_is_idempotent() {
    let v: u32 = 0x1234_5678;
    assert_eq!(set_bit(set_bit(v, 9, true), 9, true), set_bit(v, 9, true));
    assert_eq!(set_bit(set_bit(v, 9, false), 9, false), set_bit(v, 9, false));
}

#[test]
fn set_bit_on_already_matching_bit_changes_nothing() {
    assert_eq!(set_bit(0b0100, 2, true), 0b0100);
    assert_eq!(set_bit(0b1011, 2, false), 0b1011);
}

#[test]
fn set_bit_at_the_register_edges() {
    assert_eq!(set_bit(0, 0, true), 1);
    assert_eq!(set_bit(0, 31, true), 0x8000_0000);
    assert_eq!(set_bit(0xffff_ffff, 0, false), 0xffff_fffe);
    assert_eq!(set_bit(0xffff_ffff, 31, false), 0x7fff_ffff);
}

#[test]
fn get_bit_on_constant_patterns() {
    assert!(!get_bit(0, 0));
    assert!(!get_bit(0, 31));
    assert!(get_bit(0xffff_ffff, 0));
    assert!(get_bit(0xffff_ffff, 31));
    assert!(get_bit(0b0100, 2));
    assert!(!get_bit(0b0100, 3));
}
