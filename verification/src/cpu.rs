//! The CPU model: the eight 8-bit registers, the 16-bit stack pointer and
//! program counter, the four arithmetic flags, the interrupt master enable
//! flag, the cycle counter, and the run-state.
//!
//! The 16-bit register pairs BC, DE and HL exist only as compositions of two
//! 8-bit registers: the high register (B, D, H) holds the most significant
//! byte and the low register (C, E, L) the least significant byte. The pair
//! accessors below are the single source of truth for that convention.

use vstd::prelude::*;

use crate::bits::{
    is_nth_bit_set_u8, lsb_msb_to_u16, set_bit_n_state_u8, spec_bit_u8, spec_lsb, spec_msb, spec_with_bit_u8, spec_word, u16_to_lsb_msb, wrap_add_u16, wrap_add_u64,
};
use crate::memory::Memory;
use crate::opcodes::{
    dispatch_alu, dispatch_control, dispatch_loads, dispatch_low, spec_advance, spec_imm8,
    spec_step_alu, spec_step_control, spec_step_loads, spec_step_low,
};

verus! {

/// Program execution starts at this address.
pub const PROGRAM_COUNTER_START_ADDRESS: u16 = 0x0100;

/// Address of the memory-mapped interrupt enable mask.
pub const INTERRUPT_ENABLE_ADDRESS: u16 = 0xFFFF;

/// Address of the memory-mapped interrupt request mask.
pub const INTERRUPT_REQUEST_ADDRESS: u16 = 0xFF0F;

/// Represents the run-states the CPU can be in.
#[derive(Clone, Copy, PartialEq, Eq, Structural, Debug)]
pub enum CpuState {
    /// Ordinary instruction execution
    Normal,
    /// Halt mode, entered by the HALT instruction
    Halt,
    /// Stop mode, entered by the STOP instruction
    Stop,
}

/// Represents all interrupt bit flags. The payload carries the state to
/// write for the set operations and is ignored by the get operations.
#[derive(Clone, Copy, Debug)]
pub enum InterruptFlag {
    /// V-blank interrupt flag
    VBlank(Option<bool>),
    /// LCD STAT interrupt flag
    LcdStat(Option<bool>),
    /// Timer interrupt flag
    Timer(Option<bool>),
    /// Serial interrupt bit
    Serial(Option<bool>),
    /// Joypad interrupt bit
    Joypad(Option<bool>),
}

/// Bit position of an interrupt flag inside the two memory-mapped interrupt
/// masks (bits 0 to 4; bits 5 to 7 are unused and must be preserved).
pub open spec fn spec_interrupt_flag_position(flag: InterruptFlag) -> u8 {
    match flag {
        InterruptFlag::VBlank(_) => 0,
        InterruptFlag::LcdStat(_) => 1,
        InterruptFlag::Timer(_) => 2,
        InterruptFlag::Serial(_) => 3,
        InterruptFlag::Joypad(_) => 4,
    }
}

/// The state carried by an interrupt flag value; a missing payload counts
/// as `false`.
pub open spec fn spec_interrupt_flag_state(flag: InterruptFlag) -> bool {
    match flag {
        InterruptFlag::VBlank(state) => state == Some(true),
        InterruptFlag::LcdStat(state) => state == Some(true),
        InterruptFlag::Timer(state) => state == Some(true),
        InterruptFlag::Serial(state) => state == Some(true),
        InterruptFlag::Joypad(state) => state == Some(true),
    }
}

/// Outcome of one `tick`: either an instruction ran, or the opcode is
/// recognized but its handler is a stub (a fixed-cost no-op), or the opcode
/// byte has no dispatch entry at all and the machine state was left alone.
#[derive(Clone, Copy, PartialEq, Eq, Structural, Debug)]
pub enum TickResult {
    /// The opcode was decoded and its handler ran.
    Executed,
    /// The opcode is recognized but not implemented; it was treated as a
    /// fixed-cost no-op. Carries the opcode byte (for the 0xCB prefix, the
    /// byte following the prefix).
    Unimplemented(u8),
    /// The opcode byte has no dispatch entry; registers, flags and memory
    /// were left untouched. Carries the opcode byte.
    DecodeFault(u8),
}

/// Names of the 8-bit registers, used by the specifications to state what an
/// instruction does to the register file.
#[derive(Clone, Copy, PartialEq, Eq, Structural, Debug)]
pub enum Reg8 {
    A,
    B,
    C,
    D,
    E,
    H,
    L,
}

/// Names of the 16-bit register pairs (and the stack pointer, which several
/// 16-bit instructions treat as a fourth pair).
#[derive(Clone, Copy, PartialEq, Eq, Structural, Debug)]
pub enum Reg16 {
    BC,
    DE,
    HL,
    SP,
}

/// Represents the GameBoy's CPU (a Sharp CPU based on Intel's 8080 CPU).
#[derive(Clone, Copy, PartialEq, Eq, Structural, Debug)]
pub struct Cpu {
    /// Register A
    pub a: u8,
    /// Register B
    pub b: u8,
    /// Register C
    pub c: u8,
    /// Register D
    pub d: u8,
    /// Register E
    pub e: u8,
    /// Register H
    pub h: u8,
    /// Register L
    pub l: u8,
    /// Stack pointer
    pub stack_pointer: u16,
    /// Program counter
    pub program_counter: u16,
    /// Current cycle
    pub cycle: u64,
    /// Interrupt master enable flag - used to disable all interrupts
    pub ime: bool,
    /// Zero flag (Z)
    pub zero: bool,
    /// Subtraction flag (N)
    pub negative: bool,
    /// Half carry flag (H)
    pub half_carry: bool,
    /// Carry flag (C)
    pub carry: bool,
    /// CPU run-state
    pub state: CpuState,
}

/// The state of a freshly constructed or reset CPU: all registers and flags
/// cleared, the program counter at the entry address, the run-state normal.
pub open spec fn spec_initial_cpu() -> Cpu {
    Cpu {
        a: 0,
        b: 0,
        c: 0,
        d: 0,
        e: 0,
        h: 0,
        l: 0,
        stack_pointer: 0,
        program_counter: PROGRAM_COUNTER_START_ADDRESS,
        cycle: 0,
        ime: false,
        zero: false,
        negative: false,
        half_carry: false,
        carry: false,
        state: CpuState::Normal,
    }
}

/// Value of the named 8-bit register.
pub open spec fn spec_reg8(cpu: Cpu, r: Reg8) -> u8 {
    match r {
        Reg8::A => cpu.a,
        Reg8::B => cpu.b,
        Reg8::C => cpu.c,
        Reg8::D => cpu.d,
        Reg8::E => cpu.e,
        Reg8::H => cpu.h,
        Reg8::L => cpu.l,
    }
}

/// The CPU with the named 8-bit register replaced and all else kept.
pub open spec fn spec_with_reg8(cpu: Cpu, r: Reg8, value: u8) -> Cpu {
    match r {
        Reg8::A => Cpu { a: value, ..cpu },
        Reg8::B => Cpu { b: value, ..cpu },
        Reg8::C => Cpu { c: value, ..cpu },
        Reg8::D => Cpu { d: value, ..cpu },
        Reg8::E => Cpu { e: value, ..cpu },
        Reg8::H => Cpu { h: value, ..cpu },
        Reg8::L => Cpu { l: value, ..cpu },
    }
}

/// Value of the named 16-bit register pair, composed from its two 8-bit
/// halves (high register first), or the stack pointer.
pub open spec fn spec_reg16(cpu: Cpu, rr: Reg16) -> u16 {
    match rr {
        Reg16::BC => spec_word(cpu.c, cpu.b),
        Reg16::DE => spec_word(cpu.e, cpu.d),
        Reg16::HL => spec_word(cpu.l, cpu.h),
        Reg16::SP => cpu.stack_pointer,
    }
}

/// The CPU with the named 16-bit register pair replaced (decomposed into its
/// two 8-bit halves) and all else kept.
pub open spec fn spec_with_reg16(cpu: Cpu, rr: Reg16, value: u16) -> Cpu {
    match rr {
        Reg16::BC => Cpu { b: spec_msb(value), c: spec_lsb(value), ..cpu },
        Reg16::DE => Cpu { d: spec_msb(value), e: spec_lsb(value), ..cpu },
        Reg16::HL => Cpu { h: spec_msb(value), l: spec_lsb(value), ..cpu },
        Reg16::SP => Cpu { stack_pointer: value, ..cpu },
    }
}

impl Cpu {
    /// The BC register pair as seen by the specifications.
    pub open spec fn spec_bc(self) -> u16 {
        spec_word(self.c, self.b)
    }

    /// The DE register pair as seen by the specifications.
    pub open spec fn spec_de(self) -> u16 {
        spec_word(self.e, self.d)
    }

    /// The HL register pair as seen by the specifications.
    pub open spec fn spec_hl(self) -> u16 {
        spec_word(self.l, self.h)
    }

    /// Create a new Cpu instance, reset all registers, and set the program
    /// counter to the starting location (0x0100). This emulator will skip
    /// the built-in ROM and immediately jumps to the memory at which the
    /// game's logic is located.
    pub fn new() -> (r: Self)
        ensures
            r == spec_initial_cpu(),
    {
        Self {
            a: 0,
            b: 0,
            c: 0,
            d: 0,
            e: 0,
            h: 0,
            l: 0,
            stack_pointer: 0,
            program_counter: PROGRAM_COUNTER_START_ADDRESS,
            cycle: 0,
            ime: false,
            zero: false,
            negative: false,
            half_carry: false,
            carry: false,
            state: CpuState::Normal,
        }
    }

    /// Clear all registers, flags and the run-state, and set the program
    /// counter back to the entry address.
    pub fn reset(&mut self)
        ensures
            *final(self) == spec_initial_cpu(),
    {
        *self = Self::new();
    }

    /// Reset the program counter to the entry point address.
    pub fn reset_program_counter(&mut self)
        ensures
            (*final(self) == Cpu {
                program_counter: PROGRAM_COUNTER_START_ADDRESS,
                ..*old(self)
            }),
    {
        self.program_counter = PROGRAM_COUNTER_START_ADDRESS;
    }

    /// Move the program counter by adding an offset to the current position
    /// (wrapping modulo 2^16).
    pub fn move_program_counter_by(&mut self, delta: u16)
        ensures
            (*final(self) == Cpu {
                program_counter: wrap_add_u16(old(self).program_counter, delta),
                ..*old(self)
            }),
    {
        self.program_counter = self.program_counter.wrapping_add(delta);
    }

    /// Set the program counter to the specified address.
    pub fn set_program_counter(&mut self, address: u16)
        ensures
            (*final(self) == Cpu { program_counter: address, ..*old(self) }),
    {
        self.program_counter = address;
    }

    /// Get the current value of the program counter.
    pub fn get_program_counter(&self) -> (r: u16)
        ensures
            r == self.program_counter,
    {
        self.program_counter
    }

    /// Update the internal cycle tracker of the CPU (wrapping modulo 2^64;
    /// in practice the counter never comes near the limit).
    pub fn add_cycles(&mut self, cycles: u64)
        ensures
            (*final(self) == Cpu { cycle: wrap_add_u64(old(self).cycle, cycles), ..*old(self) }),
    {
        self.cycle = self.cycle.wrapping_add(cycles);
    }

    /// The BC register pair, composed at the point of use: B holds the most
    /// significant byte and C the least significant byte.
    pub fn bc(&self) -> (r: u16)
        ensures
            r == self.spec_bc(),
    {
        lsb_msb_to_u16(self.c, self.b)
    }

    /// The DE register pair, composed at the point of use: D holds the most
    /// significant byte and E the least significant byte.
    pub fn de(&self) -> (r: u16)
        ensures
            r == self.spec_de(),
    {
        lsb_msb_to_u16(self.e, self.d)
    }

    /// The HL register pair, composed at the point of use: H holds the most
    /// significant byte and L the least significant byte.
    pub fn hl(&self) -> (r: u16)
        ensures
            r == self.spec_hl(),
    {
        lsb_msb_to_u16(self.l, self.h)
    }

    /// Store a 16-bit value in the BC register pair.
    pub fn set_bc(&mut self, value: u16)
        ensures
            *final(self) == spec_with_reg16(*old(self), Reg16::BC, value),
    {
        let (lsb, msb) = u16_to_lsb_msb(value);
        self.b = msb;
        self.c = lsb;
    }

    /// Store a 16-bit value in the DE register pair.
    pub fn set_de(&mut self, value: u16)
        ensures
            *final(self) == spec_with_reg16(*old(self), Reg16::DE, value),
    {
        let (lsb, msb) = u16_to_lsb_msb(value);
        self.d = msb;
        self.e = lsb;
    }

    /// Store a 16-bit value in the HL register pair.
    pub fn set_hl(&mut self, value: u16)
        ensures
            *final(self) == spec_with_reg16(*old(self), Reg16::HL, value),
    {
        let (lsb, msb) = u16_to_lsb_msb(value);
        self.h = msb;
        self.l = lsb;
    }

    /// Update an interrupt enable bit flag (bit 0 to 4 of the byte at
    /// 0xFFFF), leaving all other bits of that byte untouched.
    pub fn set_interrupt_flag_state(&mut self, memory: &mut Memory, flag: InterruptFlag)
        requires
            old(memory).wf(),
        ensures
            *final(self) == *old(self),
            final(memory).wf(),
            final(memory)@ == old(memory)@.update(
                INTERRUPT_ENABLE_ADDRESS as int,
                spec_with_bit_u8(
                    old(memory)@[INTERRUPT_ENABLE_ADDRESS as int],
                    spec_interrupt_flag_position(flag),
                    spec_interrupt_flag_state(flag),
                ),
            ),
    {
        let flags = memory.read_byte_at(INTERRUPT_ENABLE_ADDRESS);
        let updated = Self::flag_byte_with(flags, flag);
        memory.write_byte_at(INTERRUPT_ENABLE_ADDRESS, updated);
    }

    /// Update an interrupt request bit flag (bit 0 to 4 of the byte at
    /// 0xFF0F), leaving all other bits of that byte untouched.
    pub fn set_interrupt_request_flag_state(&mut self, memory: &mut Memory, flag: InterruptFlag)
        requires
            old(memory).wf(),
        ensures
            *final(self) == *old(self),
            final(memory).wf(),
            final(memory)@ == old(memory)@.update(
                INTERRUPT_REQUEST_ADDRESS as int,
                spec_with_bit_u8(
                    old(memory)@[INTERRUPT_REQUEST_ADDRESS as int],
                    spec_interrupt_flag_position(flag),
                    spec_interrupt_flag_state(flag),
                ),
            ),
    {
        let flags = memory.read_byte_at(INTERRUPT_REQUEST_ADDRESS);
        let updated = Self::flag_byte_with(flags, flag);
        memory.write_byte_at(INTERRUPT_REQUEST_ADDRESS, updated);
    }

    /// Check if an interrupt enable bit flag has been set (byte at 0xFFFF).
    pub fn is_interrupt_flag_set(&self, memory: &Memory, flag: InterruptFlag) -> (r: bool)
        requires
            memory.wf(),
        ensures
            r == spec_bit_u8(
                memory@[INTERRUPT_ENABLE_ADDRESS as int],
                spec_interrupt_flag_position(flag),
            ),
    {
        let flags = memory.read_byte_at(INTERRUPT_ENABLE_ADDRESS);
        is_nth_bit_set_u8(flags, Self::flag_bit_position(flag))
    }

    /// Check if an interrupt request bit flag has been set (byte at 0xFF0F).
    pub fn is_request_interrupt_flag_set(&self, memory: &Memory, flag: InterruptFlag) -> (r: bool)
        requires
            memory.wf(),
        ensures
            r == spec_bit_u8(
                memory@[INTERRUPT_REQUEST_ADDRESS as int],
                spec_interrupt_flag_position(flag),
            ),
    {
        let flags = memory.read_byte_at(INTERRUPT_REQUEST_ADDRESS);
        is_nth_bit_set_u8(flags, Self::flag_bit_position(flag))
    }

    /// Bit position of an interrupt flag inside either interrupt mask byte.
    fn flag_bit_position(flag: InterruptFlag) -> (r: u8)
        ensures
            r == spec_interrupt_flag_position(flag),
            r < 8,
    {
        match flag {
            InterruptFlag::VBlank(_) => 0,
            InterruptFlag::LcdStat(_) => 1,
            InterruptFlag::Timer(_) => 2,
            InterruptFlag::Serial(_) => 3,
            InterruptFlag::Joypad(_) => 4,
        }
    }

    /// An interrupt mask byte with the bit named by `flag` forced to the
    /// state the flag carries.
    fn flag_byte_with(flags: u8, flag: InterruptFlag) -> (r: u8)
        ensures
            r == spec_with_bit_u8(
                flags,
                spec_interrupt_flag_position(flag),
                spec_interrupt_flag_state(flag),
            ),
    {
        let state = match flag {
            InterruptFlag::VBlank(state) => state,
            InterruptFlag::LcdStat(state) => state,
            InterruptFlag::Timer(state) => state,
            InterruptFlag::Serial(state) => state,
            InterruptFlag::Joypad(state) => state,
        };
        set_bit_n_state_u8(flags, Self::flag_bit_position(flag), state.unwrap_or(false))
    }

    /// Read an opcode from the location in memory to which the program
    /// counter points. Fetching does not advance the program counter: each
    /// instruction handler owns the advancement, since instruction lengths
    /// differ.
    pub fn read_opcode(&self, memory: &Memory) -> (r: u8)
        requires
            memory.wf(),
        ensures
            r == memory@[self.program_counter as int],
    {
        memory.read_byte_at(self.program_counter)
    }
}


/// Updating one interrupt bit of a mask byte writes exactly the requested
/// state at that flag's position and preserves every other bit of the byte
/// - in particular the unused bits 5 to 7, which must never be clobbered.
pub proof fn lemma_interrupt_update_preserves_other_bits(byte: u8, flag: InterruptFlag)
    ensures
        ({
            let updated = spec_with_bit_u8(
                byte,
                spec_interrupt_flag_position(flag),
                spec_interrupt_flag_state(flag),
            );
            &&& spec_bit_u8(updated, spec_interrupt_flag_position(flag))
                == spec_interrupt_flag_state(flag)
            &&& forall|j: u8|
                j < 8 && j != spec_interrupt_flag_position(flag) ==> spec_bit_u8(updated, j)
                    == spec_bit_u8(byte, j)
        }),
{
    crate::bits::lemma_with_bit_u8_effect(
        byte,
        spec_interrupt_flag_position(flag),
        spec_interrupt_flag_state(flag),
    );
}

/// The meaning of one full fetch-decode-execute step: the byte at the
/// program counter selects the instruction, and the clauses of the matching
/// block relate the machine state before the step, the state after it, and
/// the reported outcome. Opcode bytes with no dispatch entry change nothing
/// and are reported as a decode fault.
pub open spec fn spec_step_effect(
    pre_cpu: Cpu,
    pre_mem: Seq<u8>,
    post_cpu: Cpu,
    post_mem: Seq<u8>,
    r: TickResult,
) -> bool {
    let opcode = pre_mem[pre_cpu.program_counter as int];
    if opcode < 0x40 {
        spec_step_low(opcode, pre_cpu, pre_mem, post_cpu, post_mem, r)
    } else if opcode < 0x80 {
        spec_step_loads(opcode, pre_cpu, pre_mem, post_cpu, post_mem, r)
    } else if opcode < 0xC0 {
        spec_step_alu(opcode, pre_cpu, pre_mem, post_cpu, post_mem, r)
    } else {
        spec_step_control(opcode, pre_cpu, pre_mem, post_cpu, post_mem, r)
    }
}

impl Cpu {
    /// Execute the next instruction in memory: fetch the byte at the program
    /// counter, dispatch it to its handler, and report the outcome. The
    /// entire effect on the CPU and on memory is pinned down by
    /// `spec_step_effect`.
    pub fn tick(&mut self, memory: &mut Memory) -> (r: TickResult)
        requires
            old(memory).wf(),
        ensures
            final(memory).wf(),
            spec_step_effect(*old(self), old(memory)@, *final(self), final(memory)@, r),
    {
        self.process_opcode(memory)
    }

    /// Process the current opcode: map the fetched byte to exactly one
    /// handler through the four dispatch blocks.
    fn process_opcode(&mut self, memory: &mut Memory) -> (r: TickResult)
        requires
            old(memory).wf(),
        ensures
            final(memory).wf(),
            spec_step_effect(*old(self), old(memory)@, *final(self), final(memory)@, r),
    {
        let opcode = self.read_opcode(memory);

        if opcode < 0x40 {
            dispatch_low(self, memory, opcode)
        } else if opcode < 0x80 {
            dispatch_loads(self, memory, opcode)
        } else if opcode < 0xC0 {
            dispatch_alu(self, memory, opcode)
        } else {
            dispatch_control(self, memory, opcode)
        }
    }

    /// The 0xCB-prefixed secondary opcode table, a required design slot
    /// whose entries are all still stubs: the instruction is treated as a
    /// fixed-cost no-op (2 bytes, 2 machine cycles) and reported as
    /// unimplemented, carrying the byte that follows the prefix.
    pub fn process_16_bit_opcode(&mut self, memory: &Memory) -> (r: TickResult)
        requires
            memory.wf(),
        ensures
            *final(self) == spec_advance(*old(self), 2, 2),
            r == TickResult::Unimplemented(spec_imm8(memory@, old(self).program_counter)),
    {
        let sub_opcode = memory.read_byte_at(self.program_counter.wrapping_add(1));
        self.move_program_counter_by(2);
        self.add_cycles(2);
        TickResult::Unimplemented(sub_opcode)
    }
}

impl Default for Cpu {
    /// Create a new Cpu instance with default values.
    fn default() -> (r: Self)
        ensures
            r == spec_initial_cpu(),
    {
        Self::new()
    }
}

} // verus!
