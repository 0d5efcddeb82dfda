use intel8080::bit;

#[test]
fn get_reads_each_bit() {
    assert!(bit::get(0b0000_0001, 0));
    assert!(!bit::get(0b0000_0001, 1));
    assert!(bit::get(0b1000_0000, 7));
    assert!(!bit::get(0b0111_1111, 7));
    assert!(bit::get(0b0001_0000, 4));
    assert!(!bit::get(0x00, 3));
    assert!(bit::get(0xff, 3));
}

#[test]
fn set_forces_a_bit_to_one() {
    assert_eq!(bit::set(0x00, 0), 0x01);
    assert_eq!(bit::set(0x00, 7), 0x80);
    assert_eq!(bit::set(0x02, 6), 0x42);
    assert_eq!(bit::set(0xff, 3), 0xff);
    assert_eq!(bit::set(0x10, 4), 0x10);
}

#[test]
fn clear_forces_a_bit_to_zero() {
    assert_eq!(bit::clear(0xff, 0), 0xfe);
    assert_eq!(bit::clear(0xff, 7), 0x7f);
    assert_eq!(bit::clear(0x42, 6), 0x02);
    assert_eq!(bit::clear(0x00, 3), 0x00);
    assert_eq!(bit::clear(0xef, 4), 0xef);
}

#[test]
fn set_and_clear_touch_one_bit_only() {
    for byte in 0..=255u8 {
        for pos in 0..8usize {
            let on = bit::set(byte, pos);
            let off = bit::clear(byte, pos);
            assert!(bit::get(on, pos));
            assert!(!bit::get(off, pos));
            for other in 0..8usize {
                if other != pos {
                    assert_eq!(bit::get(on, other), bit::get(byte, other));
                    assert_eq!(bit::get(off, other), bit::get(byte, other));
                }
            }
        }
    }
}
