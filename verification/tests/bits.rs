use yaos::bit_manipulator::BitManipulation;

#[test]
fn get_bit_reads_one_bit() {
    assert_eq!(0b1010u8.get_bit(1), 1);
    assert_eq!(0b1010u8.get_bit(0), 0);
    assert_eq!(0x8000u16.get_bit(15), 1);
    assert_eq!(0x8000_0000u32.get_bit(31), 1);
    assert_eq!(0x8000_0000_0000_0000u64.get_bit(63), 1);
    assert_eq!(0x7fff_ffff_ffff_ffffu64.get_bit(63), 0);
}

#[test]
fn set_bit_sets_and_clears() {
    let mut byte = 0u8;
    byte.set_bit(7, 1);
    assert_eq!(byte, 0x80);
    byte.set_bit(0, 1);
    assert_eq!(byte, 0x81);
    byte.set_bit(7, 0);
    assert_eq!(byte, 0x01);

    let mut word = 0xffffu16;
    word.set_bit(8, 0);
    assert_eq!(word, 0xfeff);

    let mut long = 0u32;
    long.set_bit(31, 1);
    assert_eq!(long, 0x8000_0000);

    let mut quad = 0u64;
    quad.set_bit(63, 1);
    quad.set_bit(1, 1);
    assert_eq!(quad, 0x8000_0000_0000_0002);
}

#[test]
fn set_then_get_gives_what_was_set() {
    for position in 0..64u8 {
        let mut value = 0xdead_beef_0bad_f00du64;
        let before = value;
        value.set_bit(position, 1);
        assert_eq!(value.get_bit(position), 1);
        value.set_bit(position, 0);
        assert_eq!(value.get_bit(position), 0);
        for other in 0..64u8 {
            if other != position {
                assert_eq!(value.get_bit(other), before.get_bit(other));
            }
        }
    }
}

#[test]
fn is_bit_set_tests_a_mask() {
    assert!(0b0110u64.is_bit_set(0x2));
    assert!(!0b0110u64.is_bit_set(0x1));
    assert!(0b0110u8.is_bit_set(0b0101));
    assert!(!0u16.is_bit_set(0xffff));
    assert!(0xf0u32.is_bit_set(0x10));
}
