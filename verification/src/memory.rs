//! The Game Boy's flat 64 KiB addressable memory: byte and word reads and
//! writes, a downward-growing call/return stack addressed by an external
//! stack pointer, and bulk loading of a program image.
//!
//! Words are stored little-endian: the least significant byte sits at the
//! lower address. Every address computation that crosses the top of the
//! address space wraps modulo 2^16.

use vstd::prelude::*;

use crate::bits::{
    lsb_msb_to_u16, spec_lsb, spec_msb, spec_word, u16_to_lsb_msb, wrap_add_u16, wrap_sub_u16,
};

verus! {

/// Number of addressable bytes.
pub const MEMORY_SIZE: usize = 0x10000;

/// Error returned when a bulk load would run past address 0xFFFF.
#[derive(Clone, Copy, PartialEq, Eq, Structural, Debug)]
pub struct OutOfBounds;

/// Represents a GameBoy's addressable memory - this includes ROM, RAM, VRAM,
/// etc.
pub struct Memory {
    bytes: Vec<u8>,
}

impl View for Memory {
    type V = Seq<u8>;

    closed spec fn view(&self) -> Seq<u8> {
        self.bytes@
    }
}

/// The memory contents after pushing a 16-bit value at stack pointer `sp`:
/// the most significant byte goes to `sp - 1`, the least significant byte to
/// `sp - 2`, both taken modulo 2^16.
pub open spec fn stack_push16(mem: Seq<u8>, sp: u16, value: u16) -> Seq<u8> {
    mem.update(wrap_sub_u16(sp, 1) as int, spec_msb(value)).update(
        wrap_sub_u16(sp, 2) as int,
        spec_lsb(value),
    )
}

/// The 16-bit value read back by popping at stack pointer `sp`: the least
/// significant byte sits at `sp`, the most significant byte at `sp + 1`
/// modulo 2^16.
pub open spec fn stack_pop16_value(mem: Seq<u8>, sp: u16) -> u16 {
    spec_word(mem[sp as int], mem[wrap_add_u16(sp, 1) as int])
}

impl Memory {
    /// The single invariant of a memory object: it always holds exactly
    /// 2^16 bytes, so every 16-bit address is a valid index.
    pub open spec fn wf(&self) -> bool {
        self@.len() == MEMORY_SIZE
    }

    /// Create a new memory object, allocate the maximum size, and set all
    /// values to zero.
    pub fn new() -> (r: Self)
        ensures
            r.wf(),
            r@ == Seq::new(MEMORY_SIZE as nat, |i: int| 0u8),
    {
        let bytes = vec![0u8; MEMORY_SIZE];
        proof {
            assert(bytes@ =~= Seq::new(MEMORY_SIZE as nat, |i: int| 0u8));
        }
        Self { bytes }
    }

    /// Copy a block of bytes into memory starting at the specified address.
    /// The copy fails, and no byte of memory changes, when the block would
    /// run past address 0xFFFF.
    pub fn copy_into_memory_at_address(&mut self, address: u16, data: &Vec<u8>) -> (r: Result<
        (),
        OutOfBounds,
    >)
        requires
            old(self).wf(),
        ensures
            final(self).wf(),
            r is Ok <==> address + data@.len() <= MEMORY_SIZE,
            r is Ok ==> final(self)@ == old(self)@.subrange(0, address as int) + data@ + old(
                self,
            )@.subrange(address + data@.len(), MEMORY_SIZE as int),
            r is Err ==> final(self)@ == old(self)@,
    {
        if data.len() > MEMORY_SIZE - (address as usize) {
            return Err(OutOfBounds);
        }
        let mut index: usize = 0;
        while index < data.len()
            invariant
                self.wf(),
                index <= data.len(),
                address + data@.len() <= MEMORY_SIZE,
                forall|i: int| 0 <= i < index ==> self@[address + i] == data@[i],
                forall|i: int|
                    0 <= i < MEMORY_SIZE && !(address <= i < address + index) ==> self@[i] == old(
                        self,
                    )@[i],
            decreases data.len() - index,
        {
            let write_address = (address as usize) + index;
            self.bytes[write_address] = data[index];
            index = index + 1;
        }
        proof {
            assert(self@ =~= old(self)@.subrange(0, address as int) + data@ + old(self)@.subrange(
                address + data@.len(),
                MEMORY_SIZE as int,
            ));
        }
        Ok(())
    }

    /// Read a single byte from the specified address.
    pub fn read_byte_at(&self, address: u16) -> (r: u8)
        requires
            self.wf(),
        ensures
            r == self@[address as int],
    {
        self.bytes[address as usize]
    }

    /// Read a 16-bit value from the specified address and address + 1
    /// (wrapping modulo 2^16). The GameBoy is little-endian, which means the
    /// least significant byte comes first!
    pub fn read_16_bit_value_at(&self, address: u16) -> (r: u16)
        requires
            self.wf(),
        ensures
            r == spec_word(self@[address as int], self@[wrap_add_u16(address, 1) as int]),
    {
        let lsb = self.read_byte_at(address);
        let msb = self.read_byte_at(address.wrapping_add(1));

        lsb_msb_to_u16(lsb, msb)
    }

    /// Write a single byte to the specified address.
    pub fn write_byte_at(&mut self, address: u16, value: u8)
        requires
            old(self).wf(),
        ensures
            final(self).wf(),
            final(self)@ == old(self)@.update(address as int, value),
    {
        self.bytes[address as usize] = value;
    }

    /// Write a 16-bit value to the specified address and address + 1
    /// (wrapping modulo 2^16). The GameBoy is little-endian, which means the
    /// least significant byte comes first!
    pub fn write_16_bit_value_at(&mut self, address: u16, value: u16)
        requires
            old(self).wf(),
        ensures
            final(self).wf(),
            final(self)@ == old(self)@.update(address as int, spec_lsb(value)).update(
                wrap_add_u16(address, 1) as int,
                spec_msb(value),
            ),
    {
        let (lsb, msb) = u16_to_lsb_msb(value);

        self.write_byte_at(address, lsb);
        self.write_byte_at(address.wrapping_add(1), msb);
    }

    /// Push a new 8-bit value onto the stack: the stack grows downwards, so
    /// the stack pointer is first decremented (wrapping), then the byte is
    /// stored there. Returns the new stack pointer.
    pub fn push_stack_u8(&mut self, value: u8, stack_pointer: u16) -> (new_stack_pointer: u16)
        requires
            old(self).wf(),
        ensures
            final(self).wf(),
            new_stack_pointer == wrap_sub_u16(stack_pointer, 1),
            final(self)@ == old(self)@.update(new_stack_pointer as int, value),
    {
        let new_stack_pointer = stack_pointer.wrapping_sub(1);
        self.write_byte_at(new_stack_pointer, value);
        new_stack_pointer
    }

    /// Pop an existing 8-bit value from the stack: the byte at the stack
    /// pointer is read, then the stack pointer is incremented (wrapping).
    /// Returns the value and the new stack pointer.
    pub fn pop_stack_u8(&self, stack_pointer: u16) -> (r: (u8, u16))
        requires
            self.wf(),
        ensures
            r.0 == self@[stack_pointer as int],
            r.1 == wrap_add_u16(stack_pointer, 1),
    {
        let value = self.read_byte_at(stack_pointer);
        (value, stack_pointer.wrapping_add(1))
    }

    /// Push a new 16-bit value onto the stack. The most significant byte is
    /// stored first because the stack grows "downwards": afterwards the least
    /// significant byte sits at the lower address, as everywhere else in
    /// memory. Returns the new stack pointer.
    pub fn push_stack_u16(&mut self, value: u16, stack_pointer: u16) -> (new_stack_pointer: u16)
        requires
            old(self).wf(),
        ensures
            final(self).wf(),
            new_stack_pointer == wrap_sub_u16(stack_pointer, 2),
            final(self)@ == stack_push16(old(self)@, stack_pointer, value),
    {
        let (lsb, msb) = u16_to_lsb_msb(value);

        // MSB has to be stored first because the stack grows "downwards"
        let after_msb = self.push_stack_u8(msb, stack_pointer);

        // LSB has to be stored last because the stack grows "downwards"
        self.push_stack_u8(lsb, after_msb)
    }

    /// Pop an existing 16-bit value from the stack. The bytes are popped in
    /// reverse order of the push (see `push_stack_u16`), so a pushed value
    /// is read back unchanged. Returns the value and the new stack pointer.
    pub fn pop_stack_u16(&self, stack_pointer: u16) -> (r: (u16, u16))
        requires
            self.wf(),
        ensures
            r.0 == stack_pop16_value(self@, stack_pointer),
            r.1 == wrap_add_u16(stack_pointer, 2),
    {
        // Pop in reverse order because the stack grows "downwards"
        let (lsb, after_lsb) = self.pop_stack_u8(stack_pointer);
        let (msb, after_msb) = self.pop_stack_u8(after_lsb);

        (lsb_msb_to_u16(lsb, msb), after_msb)
    }
}

/// Pushing a 16-bit value and popping it straight back yields the value
/// unchanged, and incrementing the stack pointer twice after the two
/// decrements restores it exactly, for every value, every stack pointer and
/// every memory content.
pub proof fn lemma_stack_u16_round_trip(mem: Seq<u8>, stack_pointer: u16, value: u16)
    requires
        mem.len() == MEMORY_SIZE,
    ensures
        stack_pop16_value(stack_push16(mem, stack_pointer, value), wrap_sub_u16(stack_pointer, 2))
            == value,
        wrap_add_u16(wrap_sub_u16(stack_pointer, 2), 2) == stack_pointer,
{
    crate::bits::lemma_word_split_round_trip(value);
}

/// Writing a 16-bit word at any address up to 0xFFFE and reading it back
/// from the same address yields the word unchanged.
pub proof fn lemma_word_write_read_round_trip(mem: Seq<u8>, address: u16, value: u16)
    requires
        mem.len() == MEMORY_SIZE,
        address <= 0xFFFE,
    ensures
        spec_word(
            mem.update(address as int, spec_lsb(value)).update(
                wrap_add_u16(address, 1) as int,
                spec_msb(value),
            )[address as int],
            mem.update(address as int, spec_lsb(value)).update(
                wrap_add_u16(address, 1) as int,
                spec_msb(value),
            )[wrap_add_u16(address, 1) as int],
        ) == value,
{
    crate::bits::lemma_word_split_round_trip(value);
}

} // verus!
