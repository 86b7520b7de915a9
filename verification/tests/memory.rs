use gameboy_core::memory::{Memory, OutOfBounds};

#[test]
fn new_memory_is_zeroed() {
    let memory = Memory::new();
    assert_eq!(memory.read_byte_at(0x0000), 0);
    assert_eq!(memory.read_byte_at(0x8000), 0);
    assert_eq!(memory.read_byte_at(0xFFFF), 0);
}

#[test]
fn byte_write_then_read_round_trips() {
    let mut memory = Memory::new();
    memory.write_byte_at(0x1234, 0xAB);
    assert_eq!(memory.read_byte_at(0x1234), 0xAB);
    assert_eq!(memory.read_byte_at(0x1233), 0x00);
    assert_eq!(memory.read_byte_at(0x1235), 0x00);
}

#[test]
fn word_write_is_little_endian() {
    let mut memory = Memory::new();
    memory.write_16_bit_value_at(0x2000, 0x1234);
    assert_eq!(memory.read_byte_at(0x2000), 0x34);
    assert_eq!(memory.read_byte_at(0x2001), 0x12);
    assert_eq!(memory.read_16_bit_value_at(0x2000), 0x1234);
}

#[test]
fn word_write_read_round_trips_at_every_edge() {
    // Every address up to 0xFFFE reads back the word it was given.
    for address in [0x0000u16, 0x0001, 0x7FFF, 0xFFFD, 0xFFFE] {
        let mut memory = Memory::new();
        memory.write_16_bit_value_at(address, 0xBEEF);
        assert_eq!(memory.read_16_bit_value_at(address), 0xBEEF);
    }
}

#[test]
fn word_access_wraps_past_top_of_memory() {
    let mut memory = Memory::new();
    memory.write_16_bit_value_at(0xFFFF, 0x1234);
    assert_eq!(memory.read_byte_at(0xFFFF), 0x34);
    assert_eq!(memory.read_byte_at(0x0000), 0x12);
    assert_eq!(memory.read_16_bit_value_at(0xFFFF), 0x1234);
}

#[test]
fn stack_u8_push_pop_round_trips() {
    let mut memory = Memory::new();
    let sp = memory.push_stack_u8(0x5A, 0xFFFE);
    assert_eq!(sp, 0xFFFD);
    assert_eq!(memory.read_byte_at(0xFFFD), 0x5A);
    let (value, restored) = memory.pop_stack_u8(sp);
    assert_eq!(value, 0x5A);
    assert_eq!(restored, 0xFFFE);
}

#[test]
fn stack_u16_push_pop_round_trips() {
    // The pushed word comes back unchanged and the stack pointer is
    // restored, including when the stack wraps around address 0x0000.
    for sp in [0xFFFEu16, 0x8000, 0x0001, 0x0000] {
        for value in [0x0000u16, 0x1234, 0xFFFF, 0x00FF, 0xFF00] {
            let mut memory = Memory::new();
            let pushed_sp = memory.push_stack_u16(value, sp);
            assert_eq!(pushed_sp, sp.wrapping_sub(2));
            let (popped, restored_sp) = memory.pop_stack_u16(pushed_sp);
            assert_eq!(popped, value);
            assert_eq!(restored_sp, sp);
        }
    }
}

#[test]
fn stack_u16_grows_downward_msb_first() {
    let mut memory = Memory::new();
    let sp = memory.push_stack_u16(0xABCD, 0xC000);
    assert_eq!(sp, 0xBFFE);
    assert_eq!(memory.read_byte_at(0xBFFF), 0xAB);
    assert_eq!(memory.read_byte_at(0xBFFE), 0xCD);
}

#[test]
fn empty_copy_at_zero_succeeds_and_leaves_memory_all_zero() {
    let mut memory = Memory::new();
    let data: Vec<u8> = Vec::new();
    assert_eq!(memory.copy_into_memory_at_address(0x0000, &data), Ok(()));
    for address in 0..=0xFFFFu16 {
        assert_eq!(memory.read_byte_at(address), 0);
    }
}

#[test]
fn copy_fills_memory_from_the_given_address() {
    let mut memory = Memory::new();
    let data = vec![0x11u8, 0x22, 0x33];
    assert_eq!(memory.copy_into_memory_at_address(0x0100, &data), Ok(()));
    assert_eq!(memory.read_byte_at(0x00FF), 0x00);
    assert_eq!(memory.read_byte_at(0x0100), 0x11);
    assert_eq!(memory.read_byte_at(0x0101), 0x22);
    assert_eq!(memory.read_byte_at(0x0102), 0x33);
    assert_eq!(memory.read_byte_at(0x0103), 0x00);
}

#[test]
fn copy_to_the_exact_end_of_memory_succeeds() {
    let mut memory = Memory::new();
    let data = vec![0xAAu8, 0xBB];
    assert_eq!(memory.copy_into_memory_at_address(0xFFFE, &data), Ok(()));
    assert_eq!(memory.read_byte_at(0xFFFE), 0xAA);
    assert_eq!(memory.read_byte_at(0xFFFF), 0xBB);
}

#[test]
fn oversized_copy_fails_without_mutating_any_byte() {
    let mut memory = Memory::new();
    memory.write_byte_at(0xFFFE, 0x77);
    let data = vec![0x01u8, 0x02, 0x03];
    assert_eq!(memory.copy_into_memory_at_address(0xFFFE, &data), Err(OutOfBounds));
    for address in 0..=0xFFFFu16 {
        let expected = if address == 0xFFFE { 0x77 } else { 0x00 };
        assert_eq!(memory.read_byte_at(address), expected);
    }
}

#[test]
fn whole_memory_sized_copy_succeeds() {
    let mut memory = Memory::new();
    let data = vec![0x42u8; 0x10000];
    assert_eq!(memory.copy_into_memory_at_address(0x0000, &data), Ok(()));
    assert_eq!(memory.read_byte_at(0x0000), 0x42);
    assert_eq!(memory.read_byte_at(0xFFFF), 0x42);
    let mut too_long = vec![0u8; 0x10001];
    too_long[0] = 1;
    assert_eq!(memory.copy_into_memory_at_address(0x0000, &too_long), Err(OutOfBounds));
    assert_eq!(memory.read_byte_at(0x0000), 0x42);
}
