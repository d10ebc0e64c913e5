use gbemulator::consts::{
    bit_check, bit_disable, bit_enable, bit_set, get_empty_screen_buffer, COLOR_WHITE,
    SCREEN_HEIGHT, SCREEN_PIXELS, SCREEN_WIDTH,
};

#[test]
fn bit_check_reads_each_bit() {
    assert!(bit_check(0b0000_0001, 0));
    assert!(!bit_check(0b0000_0001, 1));
    assert!(bit_check(0b1000_0000, 7));
    assert!(!bit_check(0b0111_1111, 7));
    assert!(bit_check(0b0000_1000, 3));
    assert!(!bit_check(0b0000_0000, 3));
    for value in 0..=255u8 {
        for bit in 0..8u8 {
            assert_eq!(bit_check(value, bit), (value >> bit) & 1 == 1);
        }
    }
}

#[test]
fn bit_enable_sets_one_bit() {
    assert_eq!(bit_enable(0b0000_0000, 0), 0b0000_0001);
    assert_eq!(bit_enable(0b0000_0000, 7), 0b1000_0000);
    assert_eq!(bit_enable(0b1010_0000, 5), 0b1010_0000);
    assert_eq!(bit_enable(0b1010_0000, 4), 0b1011_0000);
}

#[test]
fn bit_disable_clears_one_bit() {
    assert_eq!(bit_disable(0b1111_1111, 0), 0b1111_1110);
    assert_eq!(bit_disable(0b1111_1111, 7), 0b0111_1111);
    assert_eq!(bit_disable(0b0101_0000, 5), 0b0101_0000);
    assert_eq!(bit_disable(0b0101_0000, 4), 0b0100_0000);
}

#[test]
fn bit_set_takes_the_value_given() {
    assert_eq!(bit_set(0b0000_0000, 3, true), 0b0000_1000);
    assert_eq!(bit_set(0b0000_1000, 3, false), 0b0000_0000);
    assert_eq!(bit_set(0b0000_1000, 3, true), 0b0000_1000);
    assert_eq!(bit_set(0b1111_0111, 3, false), 0b1111_0111);
    for value in 0..=255u8 {
        for bit in 0..8u8 {
            for on in [false, true] {
                let result = bit_set(value, bit, on);
                for other in 0..8u8 {
                    let expected = if other == bit { on } else { bit_check(value, other) };
                    assert_eq!(bit_check(result, other), expected);
                }
            }
        }
    }
}

#[test]
fn the_empty_screen_is_white() {
    let buffer = get_empty_screen_buffer();
    assert_eq!(SCREEN_PIXELS, SCREEN_WIDTH * SCREEN_HEIGHT);
    assert_eq!(buffer.len(), 65536);
    assert!(buffer.iter().all(|pixel| *pixel == COLOR_WHITE));
    assert_eq!(COLOR_WHITE, 0x00ff_ffff);
}
