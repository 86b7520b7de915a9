//! Byte- and bit-level utilities: splitting and combining 16-bit words,
//! testing and setting single bits, and the wrapping arithmetic used for
//! 16-bit address computations.

use vstd::prelude::*;

verus! {

/// Least significant byte of a 16-bit value.
pub open spec fn spec_lsb(value: u16) -> u8 {
    (value % 256) as u8
}

/// Most significant byte of a 16-bit value.
pub open spec fn spec_msb(value: u16) -> u8 {
    (value / 256) as u8
}

/// The 16-bit value formed from a least and a most significant byte.
pub open spec fn spec_word(lsb: u8, msb: u8) -> u16 {
    (msb * 256 + lsb) as u16
}

/// Addition on `u16` that wraps modulo 2^16.
pub open spec fn wrap_add_u16(x: u16, y: u16) -> u16 {
    if x + y > 0xFFFF {
        (x + y - 0x10000) as u16
    } else {
        (x + y) as u16
    }
}

/// Subtraction on `u16` that wraps modulo 2^16.
pub open spec fn wrap_sub_u16(x: u16, y: u16) -> u16 {
    if x - y < 0 {
        (x - y + 0x10000) as u16
    } else {
        (x - y) as u16
    }
}

/// Addition on `u8` that wraps modulo 2^8.
pub open spec fn wrap_add_u8(x: u8, y: u8) -> u8 {
    if x + y > 0xFF {
        (x + y - 0x100) as u8
    } else {
        (x + y) as u8
    }
}

/// Subtraction on `u8` that wraps modulo 2^8.
pub open spec fn wrap_sub_u8(x: u8, y: u8) -> u8 {
    if x - y < 0 {
        (x - y + 0x100) as u8
    } else {
        (x - y) as u8
    }
}

/// Addition on `u64` that wraps modulo 2^64.
pub open spec fn wrap_add_u64(x: u64, y: u64) -> u64 {
    if x + y > u64::MAX {
        (x + y - 0x1_0000_0000_0000_0000) as u64
    } else {
        (x + y) as u64
    }
}

/// Whether bit `position` of `value` is set.
pub open spec fn spec_bit_u8(value: u8, position: u8) -> bool
    recommends
        position < 8,
{
    value & (1u8 << position) != 0
}

/// Whether bit `position` of `value` is set.
pub open spec fn spec_bit_u16(value: u16, position: u16) -> bool
    recommends
        position < 16,
{
    value & (1u16 << position) != 0
}

/// `value` with bit `position` forced to `state` and every other bit kept.
pub open spec fn spec_with_bit_u8(value: u8, position: u8, state: bool) -> u8
    recommends
        position < 8,
{
    if state {
        value | (1u8 << position)
    } else {
        value & !(1u8 << position)
    }
}

/// Utility function to help convert a u16 into two u8 (least significant
/// byte first).
pub fn u16_to_lsb_msb(value: u16) -> (r: (u8, u8))
    ensures
        r.0 == spec_lsb(value),
        r.1 == spec_msb(value),
{
    let lsb = (value % 256) as u8;
    let msb = (value / 256) as u8;

    (lsb, msb)
}

/// Utility function to help convert two u8 into a u16 (least significant
/// byte first).
pub fn lsb_msb_to_u16(lsb: u8, msb: u8) -> (r: u16)
    ensures
        r == spec_word(lsb, msb),
{
    (msb as u16) * 256 + (lsb as u16)
}

/// Utility function to help check if bit N has been set.
pub fn is_nth_bit_set_u8(byte: u8, position: u8) -> (r: bool)
    requires
        position < 8,
    ensures
        r == spec_bit_u8(byte, position),
{
    byte & (1u8 << position) != 0
}

/// Utility function to help check if bit N has not been set.
pub fn is_nth_bit_unset_u8(byte: u8, position: u8) -> (r: bool)
    requires
        position < 8,
    ensures
        r == !spec_bit_u8(byte, position),
{
    byte & (1u8 << position) == 0
}

/// Utility function to help check if bit N has been set.
pub fn is_nth_bit_set_u16(word: u16, position: u16) -> (r: bool)
    requires
        position < 16,
    ensures
        r == spec_bit_u16(word, position),
{
    word & (1u16 << position) != 0
}

/// Utility function to help check if bit N has not been set.
pub fn is_nth_bit_unset_u16(word: u16, position: u16) -> (r: bool)
    requires
        position < 16,
    ensures
        r == !spec_bit_u16(word, position),
{
    word & (1u16 << position) == 0
}

/// Utility function to help set or clear a specific bit.
pub fn set_bit_n_state_u8(byte: u8, position: u8, state: bool) -> (r: u8)
    requires
        position < 8,
    ensures
        r == spec_with_bit_u8(byte, position, state),
{
    if state {
        byte | (1u8 << position)
    } else {
        byte & !(1u8 << position)
    }
}

/// Splitting a word into bytes and recombining them gives the word back.
pub proof fn lemma_word_split_round_trip(value: u16)
    ensures
        spec_word(spec_lsb(value), spec_msb(value)) == value,
{
}

/// Combining two bytes into a word and splitting it again gives both bytes
/// back.
pub proof fn lemma_word_combine_round_trip(lsb: u8, msb: u8)
    ensures
        spec_lsb(spec_word(lsb, msb)) == lsb,
        spec_msb(spec_word(lsb, msb)) == msb,
{
}

/// Setting a bit puts exactly the requested state at the requested position
/// and leaves every other bit of the byte untouched.
pub proof fn lemma_with_bit_u8_effect(value: u8, position: u8, state: bool)
    requires
        position < 8,
    ensures
        spec_bit_u8(spec_with_bit_u8(value, position, state), position) == state,
        forall|j: u8|
            j < 8 && j != position ==> spec_bit_u8(spec_with_bit_u8(value, position, state), j)
                == spec_bit_u8(value, j),
{
    if state {
        assert(position < 8 ==> ((value | (1u8 << position)) & (1u8 << position) != 0))
            by (bit_vector);
        assert(forall|j: u8|
            j < 8 && position < 8 && j != position ==> ((value | (1u8 << position)) & (1u8 << j)
                != 0) == (value & (1u8 << j) != 0)) by (bit_vector);
    } else {
        assert(position < 8 ==> ((value & !(1u8 << position)) & (1u8 << position) == 0))
            by (bit_vector);
        assert(forall|j: u8|
            j < 8 && position < 8 && j != position ==> ((value & !(1u8 << position)) & (1u8 << j)
                != 0) == (value & (1u8 << j) != 0)) by (bit_vector);
    }
}

} // verus!
