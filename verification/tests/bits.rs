use gameboy_core::bits::{
    is_nth_bit_set_u16, is_nth_bit_set_u8, is_nth_bit_unset_u16, is_nth_bit_unset_u8,
    lsb_msb_to_u16, set_bit_n_state_u8, u16_to_lsb_msb,
};

#[test]
fn u16_to_lsb_msb_expect_success() {
    let (lsb, msb) = u16_to_lsb_msb(0xABDE);

    assert_eq!(lsb, 0b1101_1110);
    assert_eq!(msb, 0b1010_1011);
}

#[test]
fn lsb_msb_to_u16_expect_success() {
    assert_eq!(lsb_msb_to_u16(0b1101_1110, 0b1010_1011), 0xABDE);
}

#[test]
fn is_nth_bit_set_u8_test_bit_2_3_4_5_is_set() {
    let byte = 0b0011_1100;

    // These bits have been set and should therefore return true
    assert!(is_nth_bit_set_u8(byte, 2));
    assert!(is_nth_bit_set_u8(byte, 3));
    assert!(is_nth_bit_set_u8(byte, 4));
    assert!(is_nth_bit_set_u8(byte, 5));

    // These bits have not been set and should therefore return false
    assert!(!is_nth_bit_set_u8(byte, 0));
    assert!(!is_nth_bit_set_u8(byte, 1));
    assert!(!is_nth_bit_set_u8(byte, 6));
    assert!(!is_nth_bit_set_u8(byte, 7));
}

#[test]
fn is_nth_bit_unset_u8_test_bit_2_3_4_5_is_set() {
    let byte = 0b0011_1100;

    // These bits have not been set and should therefore return true
    assert!(is_nth_bit_unset_u8(byte, 0));
    assert!(is_nth_bit_unset_u8(byte, 1));
    assert!(is_nth_bit_unset_u8(byte, 6));
    assert!(is_nth_bit_unset_u8(byte, 7));

    // These bits have been set and should therefore return false
    assert!(!is_nth_bit_unset_u8(byte, 2));
    assert!(!is_nth_bit_unset_u8(byte, 3));
    assert!(!is_nth_bit_unset_u8(byte, 4));
    assert!(!is_nth_bit_unset_u8(byte, 5));
}

#[test]
fn is_nth_bit_set_u16_test_bit_2_3_4_5_is_set() {
    let word = 0b0011_1100_0000_0000;

    // These bits have been set and should therefore return true
    assert!(is_nth_bit_set_u16(word, 10));
    assert!(is_nth_bit_set_u16(word, 11));
    assert!(is_nth_bit_set_u16(word, 12));
    assert!(is_nth_bit_set_u16(word, 13));

    // These bits have not been set and should therefore return false
    assert!(!is_nth_bit_set_u16(word, 8));
    assert!(!is_nth_bit_set_u16(word, 9));
    assert!(!is_nth_bit_set_u16(word, 14));
    assert!(!is_nth_bit_set_u16(word, 15));
}

#[test]
fn is_nth_bit_unset_u16_test_bit_2_3_4_5_is_set() {
    let word = 0b0011_1100_0000_0000;

    // These bits have not been set and should therefore return true
    assert!(is_nth_bit_unset_u16(word, 8));
    assert!(is_nth_bit_unset_u16(word, 9));
    assert!(is_nth_bit_unset_u16(word, 14));
    assert!(is_nth_bit_unset_u16(word, 15));

    // These bits have been set and should therefore return false
    assert!(!is_nth_bit_unset_u16(word, 10));
    assert!(!is_nth_bit_unset_u16(word, 11));
    assert!(!is_nth_bit_unset_u16(word, 12));
    assert!(!is_nth_bit_unset_u16(word, 13));
}

#[test]
fn set_bit_n_state_u8_set_bit_3_4() {
    let byte = 0b0000_0000;

    assert_eq!(set_bit_n_state_u8(byte, 3, true), 8);
    assert_eq!(set_bit_n_state_u8(byte, 4, true), 16);
}

#[test]
fn set_bit_n_state_u8_unset_bit_3_4() {
    let byte = 0b0001_1000;

    assert_eq!(set_bit_n_state_u8(byte, 3, false), 16);
    assert_eq!(set_bit_n_state_u8(byte, 4, false), 8);
}

#[test]
fn word_split_and_recombine_round_trips() {
    for value in [0x0000u16, 0x0001, 0x00FF, 0x0100, 0x1234, 0xABDE, 0xFFFF] {
        let (lsb, msb) = u16_to_lsb_msb(value);
        assert_eq!(lsb_msb_to_u16(lsb, msb), value);
    }
}

#[test]
fn set_bit_preserves_other_bits() {
    let byte = 0b1010_0101;
    let updated = set_bit_n_state_u8(byte, 1, true);
    assert_eq!(updated, 0b1010_0111);
    let cleared = set_bit_n_state_u8(updated, 7, false);
    assert_eq!(cleared, 0b0010_0111);
}
