//! One state-transition function per opcode. Each handler owns the whole
//! effect of its instruction: the register, flag and memory updates, the
//! program counter advancement (instruction lengths vary from 1 to 3
//! bytes), and the machine-cycle cost. The `spec_..._post` functions state
//! those effects as mathematical post-states, and the `spec_step_...`
//! relations combine them into the meaning of one full fetch-decode-execute
//! step, which `Cpu::tick` promises to implement.

use vstd::prelude::*;

use crate::bits::{
    lsb_msb_to_u16, spec_lsb, spec_msb, spec_word, wrap_add_u16, wrap_add_u64, wrap_add_u8,
    wrap_sub_u16, wrap_sub_u8,
};
use crate::cpu::{
    spec_reg16, spec_reg8, spec_with_reg16, spec_with_reg8, Cpu, CpuState, Reg16, Reg8, TickResult,
    INTERRUPT_ENABLE_ADDRESS, INTERRUPT_REQUEST_ADDRESS,
};
use crate::memory::{stack_pop16_value, stack_push16, Memory};

verus! {

/// The CPU with the program counter moved `length` bytes forward (wrapping
/// modulo 2^16) and `cycles` machine cycles added, all else kept.
pub open spec fn spec_advance(cpu: Cpu, length: u16, cycles: u64) -> Cpu {
    Cpu {
        program_counter: wrap_add_u16(cpu.program_counter, length),
        cycle: wrap_add_u64(cpu.cycle, cycles),
        ..cpu
    }
}

/// The 8-bit immediate operand of the instruction at `pc`: the byte right
/// after the opcode byte.
pub open spec fn spec_imm8(mem: Seq<u8>, pc: u16) -> u8 {
    mem[wrap_add_u16(pc, 1) as int]
}

/// The 16-bit immediate operand of the instruction at `pc`, read
/// little-endian from the two bytes after the opcode byte.
pub open spec fn spec_imm16(mem: Seq<u8>, pc: u16) -> u16 {
    spec_word(mem[wrap_add_u16(pc, 1) as int], mem[wrap_add_u16(pc, 2) as int])
}

/// `value` plus the signed 8-bit operand `offset` (two's complement),
/// wrapping modulo 2^16.
pub open spec fn spec_s8_offset(value: u16, offset: u8) -> u16 {
    if offset < 128 {
        wrap_add_u16(value, offset as u16)
    } else {
        wrap_sub_u16(wrap_add_u16(value, offset as u16), 256)
    }
}

/// Target of a relative jump: the signed offset is measured from the
/// instruction following the 2-byte jump instruction.
pub open spec fn spec_jr_target(pc: u16, offset: u8) -> u16 {
    spec_s8_offset(wrap_add_u16(pc, 2), offset)
}

/// The high-page address 0xFF00 + `low`.
pub open spec fn spec_high_address(low: u8) -> u16 {
    (0xFF00 + low) as u16
}

/// The four flags packed into one byte, as `PUSH AF` stores them: Carry at
/// bit 0, Half-Carry at bit 1, Negative at bit 2, Zero at bit 3.
pub open spec fn spec_pack_flags(cpu: Cpu) -> u8 {
    ((if cpu.zero {
        8int
    } else {
        0int
    }) + (if cpu.negative {
        4int
    } else {
        0int
    }) + (if cpu.half_carry {
        2int
    } else {
        0int
    }) + (if cpu.carry {
        1int
    } else {
        0int
    })) as u8
}

/// Post-state of `NOP`.
pub open spec fn spec_nop_post(cpu: Cpu) -> Cpu {
    spec_advance(cpu, 1, 1)
}

/// Post-state of a 16-bit immediate load into a register pair.
pub open spec fn spec_ld_r16_d16_post(cpu: Cpu, rr: Reg16, value: u16) -> Cpu {
    spec_advance(spec_with_reg16(cpu, rr, value), 3, 3)
}

/// Post-state of a 16-bit register pair increment: no flag changes.
pub open spec fn spec_inc_r16_post(cpu: Cpu, rr: Reg16) -> Cpu {
    spec_advance(spec_with_reg16(cpu, rr, wrap_add_u16(spec_reg16(cpu, rr), 1)), 1, 2)
}

/// Post-state of a 16-bit register pair decrement: no flag changes.
pub open spec fn spec_dec_r16_post(cpu: Cpu, rr: Reg16) -> Cpu {
    spec_advance(spec_with_reg16(cpu, rr, wrap_sub_u16(spec_reg16(cpu, rr), 1)), 1, 2)
}

/// Post-state of an 8-bit register increment: Zero and Half-Carry are
/// recomputed (Half-Carry is the carry out of bit 3), Negative is cleared,
/// and the Carry flag is never altered.
pub open spec fn spec_inc_r8_post(cpu: Cpu, r: Reg8) -> Cpu {
    let value = spec_reg8(cpu, r);
    let result = wrap_add_u8(value, 1);
    spec_advance(
        Cpu {
            zero: result == 0,
            negative: false,
            half_carry: value % 16 == 15,
            ..spec_with_reg8(cpu, r, result)
        },
        1,
        1,
    )
}

/// Post-state of an 8-bit register decrement: Zero and Half-Carry are
/// recomputed (Half-Carry is the borrow out of bit 4), Negative is set,
/// and the Carry flag is never altered.
pub open spec fn spec_dec_r8_post(cpu: Cpu, r: Reg8) -> Cpu {
    let value = spec_reg8(cpu, r);
    let result = wrap_sub_u8(value, 1);
    spec_advance(
        Cpu {
            zero: result == 0,
            negative: true,
            half_carry: value % 16 == 0,
            ..spec_with_reg8(cpu, r, result)
        },
        1,
        1,
    )
}

/// Post-state of a plain 8-bit load into a register: no flag changes.
pub open spec fn spec_ld_r8_post(cpu: Cpu, r: Reg8, value: u8, length: u16, cycles: u64) -> Cpu {
    spec_advance(spec_with_reg8(cpu, r, value), length, cycles)
}

/// Post-state of `RLCA`: A rotated left by one, the old bit 7 lands in both
/// bit 0 and the Carry flag; Zero, Negative and Half-Carry are cleared.
pub open spec fn spec_rlca_post(cpu: Cpu) -> Cpu {
    spec_advance(
        Cpu {
            a: ((cpu.a % 128) * 2 + cpu.a / 128) as u8,
            zero: false,
            negative: false,
            half_carry: false,
            carry: cpu.a >= 128,
            ..cpu
        },
        1,
        1,
    )
}

/// Post-state of `RRCA`: A rotated right by one, the old bit 0 lands in both
/// bit 7 and the Carry flag; Zero, Negative and Half-Carry are cleared.
pub open spec fn spec_rrca_post(cpu: Cpu) -> Cpu {
    spec_advance(
        Cpu {
            a: (cpu.a / 2 + (cpu.a % 2) * 128) as u8,
            zero: false,
            negative: false,
            half_carry: false,
            carry: cpu.a % 2 == 1,
            ..cpu
        },
        1,
        1,
    )
}

/// Post-state of `RLA`: A rotated left through the Carry flag; the old Carry
/// lands in bit 0 and the old bit 7 becomes the new Carry.
pub open spec fn spec_rla_post(cpu: Cpu) -> Cpu {
    spec_advance(
        Cpu {
            a: ((cpu.a % 128) * 2 + (if cpu.carry {
                1int
            } else {
                0int
            })) as u8,
            zero: false,
            negative: false,
            half_carry: false,
            carry: cpu.a >= 128,
            ..cpu
        },
        1,
        1,
    )
}

/// Post-state of `RRA`: A rotated right through the Carry flag; the old
/// Carry lands in bit 7 and the old bit 0 becomes the new Carry.
pub open spec fn spec_rra_post(cpu: Cpu) -> Cpu {
    spec_advance(
        Cpu {
            a: (cpu.a / 2 + (if cpu.carry {
                128int
            } else {
                0int
            })) as u8,
            zero: false,
            negative: false,
            half_carry: false,
            carry: cpu.a % 2 == 1,
            ..cpu
        },
        1,
        1,
    )
}

/// Post-state of `ADD HL,rr`: HL takes the wrapped sum; Negative is
/// cleared, Half-Carry is the carry out of bit 11, Carry the carry out of
/// bit 15, and Zero is preserved.
pub open spec fn spec_add_hl_r16_post(cpu: Cpu, rr: Reg16) -> Cpu {
    let hl = cpu.spec_hl();
    let value = spec_reg16(cpu, rr);
    spec_advance(
        Cpu {
            negative: false,
            half_carry: hl % 0x1000 + value % 0x1000 > 0xFFF,
            carry: hl + value > 0xFFFF,
            ..spec_with_reg16(cpu, Reg16::HL, wrap_add_u16(hl, value))
        },
        1,
        2,
    )
}

/// Post-state of `STOP`: Stop mode is entered only when none of the five
/// interrupt enable bits is set; the low five bits of `enabled` are those
/// of the byte at 0xFFFF.
pub open spec fn spec_stop_post(cpu: Cpu, enabled: u8) -> Cpu {
    spec_advance(
        Cpu {
            state: if enabled % 32 == 0 {
                CpuState::Stop
            } else {
                cpu.state
            },
            ..cpu
        },
        2,
        1,
    )
}

/// Post-state of `HALT`: Halt mode is entered.
pub open spec fn spec_halt_post(cpu: Cpu) -> Cpu {
    spec_advance(Cpu { state: CpuState::Halt, ..cpu }, 1, 1)
}

/// Post-state of a relative jump: taken, the program counter moves to the
/// target and 3 cycles pass; not taken, it moves past the instruction and 2
/// cycles pass.
pub open spec fn spec_jr_post(cpu: Cpu, offset: u8, taken: bool) -> Cpu {
    if taken {
        Cpu {
            program_counter: spec_jr_target(cpu.program_counter, offset),
            cycle: wrap_add_u64(cpu.cycle, 3),
            ..cpu
        }
    } else {
        spec_advance(cpu, 2, 2)
    }
}

/// Post-state (CPU side) of `LD (HL+),A` and `LD (HL-),A`: HL moves by
/// `step`; the store itself is a memory effect.
pub open spec fn spec_ld_hl_step_post(cpu: Cpu, step: int) -> Cpu {
    let moved = if step == 1 {
        wrap_add_u16(cpu.spec_hl(), 1)
    } else {
        wrap_sub_u16(cpu.spec_hl(), 1)
    };
    spec_advance(spec_with_reg16(cpu, Reg16::HL, moved), 1, 2)
}

/// Post-state of `LD A,(HL+)` and `LD A,(HL-)`: A takes the byte at HL and
/// HL moves by `step`.
pub open spec fn spec_ld_a_hl_step_post(cpu: Cpu, value: u8, step: int) -> Cpu {
    let moved = if step == 1 {
        wrap_add_u16(cpu.spec_hl(), 1)
    } else {
        wrap_sub_u16(cpu.spec_hl(), 1)
    };
    spec_advance(spec_with_reg16(spec_with_reg8(cpu, Reg8::A, value), Reg16::HL, moved), 1, 2)
}

/// Post-state (CPU side) of `INC (HL)`, given the old byte at HL: flags as
/// for an 8-bit increment, the Carry flag never altered.
pub open spec fn spec_inc_at_hl_flags_post(cpu: Cpu, value: u8) -> Cpu {
    spec_advance(
        Cpu {
            zero: wrap_add_u8(value, 1) == 0,
            negative: false,
            half_carry: value % 16 == 15,
            ..cpu
        },
        1,
        3,
    )
}

/// Post-state (CPU side) of `DEC (HL)`, given the old byte at HL: flags as
/// for an 8-bit decrement, the Carry flag never altered.
pub open spec fn spec_dec_at_hl_flags_post(cpu: Cpu, value: u8) -> Cpu {
    spec_advance(
        Cpu {
            zero: wrap_sub_u8(value, 1) == 0,
            negative: true,
            half_carry: value % 16 == 0,
            ..cpu
        },
        1,
        3,
    )
}

/// Post-state of `CPL`: A is complemented; Negative and Half-Carry are set,
/// Zero and Carry preserved.
pub open spec fn spec_cpl_post(cpu: Cpu) -> Cpu {
    spec_advance(Cpu { a: (255 - cpu.a) as u8, negative: true, half_carry: true, ..cpu }, 1, 1)
}

/// Post-state of `SCF`: Carry set, Negative and Half-Carry cleared, Zero
/// preserved.
pub open spec fn spec_scf_post(cpu: Cpu) -> Cpu {
    spec_advance(Cpu { carry: true, negative: false, half_carry: false, ..cpu }, 1, 1)
}

/// Post-state of `CCF`: Carry flipped, Negative and Half-Carry cleared,
/// Zero preserved.
pub open spec fn spec_ccf_post(cpu: Cpu) -> Cpu {
    spec_advance(Cpu { carry: !cpu.carry, negative: false, half_carry: false, ..cpu }, 1, 1)
}

/// Post-state of an 8-bit addition into A: Zero is recomputed, Negative is
/// cleared, Half-Carry is the true carry out of bit 3 and Carry the true
/// carry out of bit 7 of the addition.
pub open spec fn spec_add_a_post(cpu: Cpu, value: u8, length: u16, cycles: u64) -> Cpu {
    let result = wrap_add_u8(cpu.a, value);
    spec_advance(
        Cpu {
            a: result,
            zero: result == 0,
            negative: false,
            half_carry: cpu.a % 16 + value % 16 > 15,
            carry: cpu.a + value > 255,
            ..cpu
        },
        length,
        cycles,
    )
}

/// Post-state of an 8-bit subtraction from A: Zero is recomputed, Negative
/// is set, Half-Carry is the true nibble borrow and Carry the true byte
/// borrow of the subtraction.
pub open spec fn spec_sub_a_post(cpu: Cpu, value: u8, length: u16, cycles: u64) -> Cpu {
    let result = wrap_sub_u8(cpu.a, value);
    spec_advance(
        Cpu {
            a: result,
            zero: result == 0,
            negative: true,
            half_carry: cpu.a % 16 < value % 16,
            carry: cpu.a < value,
            ..cpu
        },
        length,
        cycles,
    )
}

/// Post-state of a bitwise AND into A: Half-Carry is set, Negative and
/// Carry are cleared.
pub open spec fn spec_and_a_post(cpu: Cpu, value: u8, length: u16, cycles: u64) -> Cpu {
    let result = cpu.a & value;
    spec_advance(
        Cpu {
            a: result,
            zero: result == 0,
            negative: false,
            half_carry: true,
            carry: false,
            ..cpu
        },
        length,
        cycles,
    )
}

/// Post-state of a bitwise XOR into A: Negative, Half-Carry and Carry are
/// cleared.
pub open spec fn spec_xor_a_post(cpu: Cpu, value: u8, length: u16, cycles: u64) -> Cpu {
    let result = cpu.a ^ value;
    spec_advance(
        Cpu {
            a: result,
            zero: result == 0,
            negative: false,
            half_carry: false,
            carry: false,
            ..cpu
        },
        length,
        cycles,
    )
}

/// Post-state of a bitwise OR into A: Negative, Half-Carry and Carry are
/// cleared.
pub open spec fn spec_or_a_post(cpu: Cpu, value: u8, length: u16, cycles: u64) -> Cpu {
    let result = cpu.a | value;
    spec_advance(
        Cpu {
            a: result,
            zero: result == 0,
            negative: false,
            half_carry: false,
            carry: false,
            ..cpu
        },
        length,
        cycles,
    )
}

/// Post-state of a comparison against A: the subtraction's flags are
/// computed and its result discarded, so register A is unchanged.
pub open spec fn spec_cp_a_post(cpu: Cpu, value: u8, length: u16, cycles: u64) -> Cpu {
    spec_advance(
        Cpu {
            zero: wrap_sub_u8(cpu.a, value) == 0,
            negative: true,
            half_carry: cpu.a % 16 < value % 16,
            carry: cpu.a < value,
            ..cpu
        },
        length,
        cycles,
    )
}

/// Post-state of an absolute jump: taken, the program counter takes the
/// target and 4 cycles pass; not taken, 3 cycles pass.
pub open spec fn spec_jp_post(cpu: Cpu, target: u16, taken: bool) -> Cpu {
    if taken {
        Cpu { program_counter: target, cycle: wrap_add_u64(cpu.cycle, 4), ..cpu }
    } else {
        spec_advance(cpu, 3, 3)
    }
}

/// Post-state of `JP (HL)`.
pub open spec fn spec_jp_hl_post(cpu: Cpu) -> Cpu {
    Cpu { program_counter: cpu.spec_hl(), cycle: wrap_add_u64(cpu.cycle, 1), ..cpu }
}

/// Post-state (CPU side) of a call: taken, the return address (the program
/// counter plus 3) is pushed - a memory effect - the stack pointer drops by
/// two, the program counter takes the target, and 6 cycles pass; not
/// taken, 3 cycles pass.
pub open spec fn spec_call_post(cpu: Cpu, target: u16, taken: bool) -> Cpu {
    if taken {
        Cpu {
            program_counter: target,
            stack_pointer: wrap_sub_u16(cpu.stack_pointer, 2),
            cycle: wrap_add_u64(cpu.cycle, 6),
            ..cpu
        }
    } else {
        spec_advance(cpu, 3, 3)
    }
}

/// Post-state of a taken return: the program counter is popped from the
/// stack, the stack pointer rises by two.
pub open spec fn spec_ret_post(cpu: Cpu, mem: Seq<u8>, cycles: u64) -> Cpu {
    Cpu {
        program_counter: stack_pop16_value(mem, cpu.stack_pointer),
        stack_pointer: wrap_add_u16(cpu.stack_pointer, 2),
        cycle: wrap_add_u64(cpu.cycle, cycles),
        ..cpu
    }
}

/// Post-state (CPU side) of `RETI`: a return whose side effects are to
/// clear the interrupt master enable flag and - as a memory effect - all
/// five interrupt request bits.
pub open spec fn spec_reti_cpu_post(cpu: Cpu, mem: Seq<u8>) -> Cpu {
    Cpu { ime: false, ..spec_ret_post(cpu, mem, 4) }
}

/// Post-state (CPU side) of a 16-bit push: the stack pointer drops by two;
/// the stores are a memory effect.
pub open spec fn spec_push_r16_post(cpu: Cpu) -> Cpu {
    spec_advance(Cpu { stack_pointer: wrap_sub_u16(cpu.stack_pointer, 2), ..cpu }, 1, 4)
}

/// Post-state of a 16-bit pop into a register pair: the pair takes the word
/// at the stack pointer and the stack pointer rises by two.
pub open spec fn spec_pop_r16_post(cpu: Cpu, mem: Seq<u8>, rr: Reg16) -> Cpu {
    spec_advance(
        Cpu {
            stack_pointer: wrap_add_u16(cpu.stack_pointer, 2),
            ..spec_with_reg16(cpu, rr, stack_pop16_value(mem, cpu.stack_pointer))
        },
        1,
        3,
    )
}

/// Post-state of `POP AF`: the byte at the stack pointer unpacks into the
/// four flags (Carry at bit 0, Half-Carry at bit 1, Negative at bit 2,
/// Zero at bit 3), the byte above it goes to register A.
pub open spec fn spec_pop_af_post(cpu: Cpu, mem: Seq<u8>) -> Cpu {
    let flags = mem[cpu.stack_pointer as int];
    spec_advance(
        Cpu {
            a: mem[wrap_add_u16(cpu.stack_pointer, 1) as int],
            carry: flags % 2 == 1,
            half_carry: flags / 2 % 2 == 1,
            negative: flags / 4 % 2 == 1,
            zero: flags / 8 % 2 == 1,
            stack_pointer: wrap_add_u16(cpu.stack_pointer, 2),
            ..cpu
        },
        1,
        3,
    )
}

/// Post-state of `ADD SP,s8`: the stack pointer takes the signed sum; Zero
/// and Negative are cleared, Half-Carry and Carry come from the low-byte
/// addition.
pub open spec fn spec_add_sp_s8_post(cpu: Cpu, offset: u8) -> Cpu {
    spec_advance(
        Cpu {
            stack_pointer: spec_s8_offset(cpu.stack_pointer, offset),
            zero: false,
            negative: false,
            half_carry: cpu.stack_pointer % 16 + offset % 16 > 15,
            carry: cpu.stack_pointer % 256 + offset > 255,
            ..cpu
        },
        2,
        4,
    )
}

/// Post-state of `LD HL,SP+s8`: HL takes the signed sum, the stack pointer
/// is unchanged; flags as for `ADD SP,s8`.
pub open spec fn spec_ld_hl_sp_s8_post(cpu: Cpu, offset: u8) -> Cpu {
    spec_advance(
        Cpu {
            zero: false,
            negative: false,
            half_carry: cpu.stack_pointer % 16 + offset % 16 > 15,
            carry: cpu.stack_pointer % 256 + offset > 255,
            ..spec_with_reg16(cpu, Reg16::HL, spec_s8_offset(cpu.stack_pointer, offset))
        },
        2,
        3,
    )
}

/// Post-state of `LD SP,HL`.
pub open spec fn spec_ld_sp_hl_post(cpu: Cpu) -> Cpu {
    spec_advance(Cpu { stack_pointer: cpu.spec_hl(), ..cpu }, 1, 2)
}

/// Post-state (CPU side) of `DI`: the interrupt master enable flag is
/// cleared; clearing the five request bits is a memory effect.
pub open spec fn spec_di_cpu_post(cpu: Cpu) -> Cpu {
    Cpu { ime: false, ..spec_advance(cpu, 1, 1) }
}

/// Post-state of `EI`: the interrupt master enable flag is set.
pub open spec fn spec_ei_post(cpu: Cpu) -> Cpu {
    Cpu { ime: true, ..spec_advance(cpu, 1, 1) }
}

/// Shared body of every recognized-but-unimplemented opcode: the
/// instruction is treated as a fixed-cost no-op so that the program counter
/// stays in step with the program.
pub fn unimplemented_opcode(cpu: &mut Cpu, length: u16, cycles: u64)
    ensures
        *final(cpu) == spec_advance(*old(cpu), length, cycles),
{
    cpu.move_program_counter_by(length);
    cpu.add_cycles(cycles);
}


/// Opcode 0x00: `NOP` - only advances the program counter by 1. No flags
/// are affected; 1 machine cycle.
pub fn nop(cpu: &mut Cpu)
    ensures
        *final(cpu) == spec_nop_post(*old(cpu)),
{
    cpu.move_program_counter_by(1);
    cpu.add_cycles(1);
}

/// Opcode 0x01: `LD BC,d16` - load the 2 bytes of immediate data
/// (little-endian) into register pair BC. No flags are affected;
/// length 3 bytes; 3 machine cycles.
pub fn ld_bc_d16(cpu: &mut Cpu, memory: &Memory)
    requires
        memory.wf(),
    ensures
        *final(cpu) == spec_ld_r16_d16_post(*old(cpu), Reg16::BC, spec_imm16(memory@, old(cpu).program_counter)),
{
    let value = memory.read_16_bit_value_at(cpu.program_counter.wrapping_add(1));
    cpu.set_bc(value);
    cpu.move_program_counter_by(3);
    cpu.add_cycles(3);
}

/// Opcode 0x11: `LD DE,d16` - load the 2 bytes of immediate data
/// (little-endian) into register pair DE. No flags are affected;
/// length 3 bytes; 3 machine cycles.
pub fn ld_de_d16(cpu: &mut Cpu, memory: &Memory)
    requires
        memory.wf(),
    ensures
        *final(cpu) == spec_ld_r16_d16_post(*old(cpu), Reg16::DE, spec_imm16(memory@, old(cpu).program_counter)),
{
    let value = memory.read_16_bit_value_at(cpu.program_counter.wrapping_add(1));
    cpu.set_de(value);
    cpu.move_program_counter_by(3);
    cpu.add_cycles(3);
}

/// Opcode 0x21: `LD HL,d16` - load the 2 bytes of immediate data
/// (little-endian) into register pair HL. No flags are affected;
/// length 3 bytes; 3 machine cycles.
pub fn ld_hl_d16(cpu: &mut Cpu, memory: &Memory)
    requires
        memory.wf(),
    ensures
        *final(cpu) == spec_ld_r16_d16_post(*old(cpu), Reg16::HL, spec_imm16(memory@, old(cpu).program_counter)),
{
    let value = memory.read_16_bit_value_at(cpu.program_counter.wrapping_add(1));
    cpu.set_hl(value);
    cpu.move_program_counter_by(3);
    cpu.add_cycles(3);
}

/// Opcode 0x31: `LD SP,d16` - load the 2 bytes of immediate data
/// (little-endian) into the stack pointer SP. No flags are affected;
/// length 3 bytes; 3 machine cycles.
pub fn ld_sp_d16(cpu: &mut Cpu, memory: &Memory)
    requires
        memory.wf(),
    ensures
        *final(cpu) == spec_ld_r16_d16_post(*old(cpu), Reg16::SP, spec_imm16(memory@, old(cpu).program_counter)),
{
    let value = memory.read_16_bit_value_at(cpu.program_counter.wrapping_add(1));
    cpu.stack_pointer = value;
    cpu.move_program_counter_by(3);
    cpu.add_cycles(3);
}

/// Opcode 0x02: `LD (BC),A` - store the contents of register A in
/// the memory location specified by register pair BC. No flags are
/// affected; length 1 byte; 2 machine cycles.
pub fn ld_bc_a(cpu: &mut Cpu, memory: &mut Memory)
    requires
        old(memory).wf(),
    ensures
        final(memory).wf(),
        *final(cpu) == spec_advance(*old(cpu), 1, 2),
        final(memory)@ == old(memory)@.update(old(cpu).spec_bc() as int, old(cpu).a),
{
    let address = cpu.bc();
    memory.write_byte_at(address, cpu.a);
    cpu.move_program_counter_by(1);
    cpu.add_cycles(2);
}

/// Opcode 0x12: `LD (DE),A` - store the contents of register A in
/// the memory location specified by register pair DE. No flags are
/// affected; length 1 byte; 2 machine cycles.
pub fn ld_de_a(cpu: &mut Cpu, memory: &mut Memory)
    requires
        old(memory).wf(),
    ensures
        final(memory).wf(),
        *final(cpu) == spec_advance(*old(cpu), 1, 2),
        final(memory)@ == old(memory)@.update(old(cpu).spec_de() as int, old(cpu).a),
{
    let address = cpu.de();
    memory.write_byte_at(address, cpu.a);
    cpu.move_program_counter_by(1);
    cpu.add_cycles(2);
}

/// Opcode 0x03: `INC BC` - increment the contents of register pair BC
/// by 1, wrapping at 0xFFFF. No flags are affected; length 1 byte;
/// 2 machine cycles.
pub fn inc_bc(cpu: &mut Cpu)
    ensures
        *final(cpu) == spec_inc_r16_post(*old(cpu), Reg16::BC),
{
    let value = cpu.bc().wrapping_add(1);
    cpu.set_bc(value);
    cpu.move_program_counter_by(1);
    cpu.add_cycles(2);
}

/// Opcode 0x13: `INC DE` - increment the contents of register pair DE
/// by 1, wrapping at 0xFFFF. No flags are affected; length 1 byte;
/// 2 machine cycles.
pub fn inc_de(cpu: &mut Cpu)
    ensures
        *final(cpu) == spec_inc_r16_post(*old(cpu), Reg16::DE),
{
    let value = cpu.de().wrapping_add(1);
    cpu.set_de(value);
    cpu.move_program_counter_by(1);
    cpu.add_cycles(2);
}

/// Opcode 0x23: `INC HL` - increment the contents of register pair HL
/// by 1, wrapping at 0xFFFF. No flags are affected; length 1 byte;
/// 2 machine cycles.
pub fn inc_hl(cpu: &mut Cpu)
    ensures
        *final(cpu) == spec_inc_r16_post(*old(cpu), Reg16::HL),
{
    let value = cpu.hl().wrapping_add(1);
    cpu.set_hl(value);
    cpu.move_program_counter_by(1);
    cpu.add_cycles(2);
}

/// Opcode 0x33: `INC SP` - increment the contents of the stack pointer SP
/// by 1, wrapping at 0xFFFF. No flags are affected; length 1 byte;
/// 2 machine cycles.
pub fn inc_sp(cpu: &mut Cpu)
    ensures
        *final(cpu) == spec_inc_r16_post(*old(cpu), Reg16::SP),
{
    cpu.stack_pointer = cpu.stack_pointer.wrapping_add(1);
    cpu.move_program_counter_by(1);
    cpu.add_cycles(2);
}

/// Opcode 0x0B: `DEC BC` - decrement the contents of register pair BC
/// by 1, wrapping at 0x0000. No flags are affected; length 1 byte;
/// 2 machine cycles.
pub fn dec_bc(cpu: &mut Cpu)
    ensures
        *final(cpu) == spec_dec_r16_post(*old(cpu), Reg16::BC),
{
    let value = cpu.bc().wrapping_sub(1);
    cpu.set_bc(value);
    cpu.move_program_counter_by(1);
    cpu.add_cycles(2);
}

/// Opcode 0x1B: `DEC DE` - decrement the contents of register pair DE
/// by 1, wrapping at 0x0000. No flags are affected; length 1 byte;
/// 2 machine cycles.
pub fn dec_de(cpu: &mut Cpu)
    ensures
        *final(cpu) == spec_dec_r16_post(*old(cpu), Reg16::DE),
{
    let value = cpu.de().wrapping_sub(1);
    cpu.set_de(value);
    cpu.move_program_counter_by(1);
    cpu.add_cycles(2);
}

/// Opcode 0x2B: `DEC HL` - decrement the contents of register pair HL
/// by 1, wrapping at 0x0000. No flags are affected; length 1 byte;
/// 2 machine cycles.
pub fn dec_hl(cpu: &mut Cpu)
    ensures
        *final(cpu) == spec_dec_r16_post(*old(cpu), Reg16::HL),
{
    let value = cpu.hl().wrapping_sub(1);
    cpu.set_hl(value);
    cpu.move_program_counter_by(1);
    cpu.add_cycles(2);
}

/// Opcode 0x3B: `DEC SP` - decrement the contents of the stack pointer SP
/// by 1, wrapping at 0x0000. No flags are affected; length 1 byte;
/// 2 machine cycles.
pub fn dec_sp(cpu: &mut Cpu)
    ensures
        *final(cpu) == spec_dec_r16_post(*old(cpu), Reg16::SP),
{
    cpu.stack_pointer = cpu.stack_pointer.wrapping_sub(1);
    cpu.move_program_counter_by(1);
    cpu.add_cycles(2);
}

/// Opcode 0x04: `INC B` - increment the contents of register B by 1,
/// wrapping at 0xFF. Zero and Half-Carry are recomputed, Negative is
/// cleared, and Carry is left untouched; length 1 byte; 1 machine cycle.
pub fn inc_b(cpu: &mut Cpu)
    ensures
        *final(cpu) == spec_inc_r8_post(*old(cpu), Reg8::B),
{
    let value = cpu.b;
    cpu.half_carry = value % 16 == 15;
    cpu.b = value.wrapping_add(1);
    cpu.zero = cpu.b == 0;
    cpu.negative = false;
    cpu.move_program_counter_by(1);
    cpu.add_cycles(1);
}

/// Opcode 0x0C: `INC C` - increment the contents of register C by 1,
/// wrapping at 0xFF. Zero and Half-Carry are recomputed, Negative is
/// cleared, and Carry is left untouched; length 1 byte; 1 machine cycle.
pub fn inc_c(cpu: &mut Cpu)
    ensures
        *final(cpu) == spec_inc_r8_post(*old(cpu), Reg8::C),
{
    let value = cpu.c;
    cpu.half_carry = value % 16 == 15;
    cpu.c = value.wrapping_add(1);
    cpu.zero = cpu.c == 0;
    cpu.negative = false;
    cpu.move_program_counter_by(1);
    cpu.add_cycles(1);
}

/// Opcode 0x14: `INC D` - increment the contents of register D by 1,
/// wrapping at 0xFF. Zero and Half-Carry are recomputed, Negative is
/// cleared, and Carry is left untouched; length 1 byte; 1 machine cycle.
pub fn inc_d(cpu: &mut Cpu)
    ensures
        *final(cpu) == spec_inc_r8_post(*old(cpu), Reg8::D),
{
    let value = cpu.d;
    cpu.half_carry = value % 16 == 15;
    cpu.d = value.wrapping_add(1);
    cpu.zero = cpu.d == 0;
    cpu.negative = false;
    cpu.move_program_counter_by(1);
    cpu.add_cycles(1);
}

/// Opcode 0x1C: `INC E` - increment the contents of register E by 1,
/// wrapping at 0xFF. Zero and Half-Carry are recomputed, Negative is
/// cleared, and Carry is left untouched; length 1 byte; 1 machine cycle.
pub fn inc_e(cpu: &mut Cpu)
    ensures
        *final(cpu) == spec_inc_r8_post(*old(cpu), Reg8::E),
{
    let value = cpu.e;
    cpu.half_carry = value % 16 == 15;
    cpu.e = value.wrapping_add(1);
    cpu.zero = cpu.e == 0;
    cpu.negative = false;
    cpu.move_program_counter_by(1);
    cpu.add_cycles(1);
}

/// Opcode 0x24: `INC H` - increment the contents of register H by 1,
/// wrapping at 0xFF. Zero and Half-Carry are recomputed, Negative is
/// cleared, and Carry is left untouched; length 1 byte; 1 machine cycle.
pub fn inc_h(cpu: &mut Cpu)
    ensures
        *final(cpu) == spec_inc_r8_post(*old(cpu), Reg8::H),
{
    let value = cpu.h;
    cpu.half_carry = value % 16 == 15;
    cpu.h = value.wrapping_add(1);
    cpu.zero = cpu.h == 0;
    cpu.negative = false;
    cpu.move_program_counter_by(1);
    cpu.add_cycles(1);
}

/// Opcode 0x2C: `INC L` - increment the contents of register L by 1,
/// wrapping at 0xFF. Zero and Half-Carry are recomputed, Negative is
/// cleared, and Carry is left untouched; length 1 byte; 1 machine cycle.
pub fn inc_l(cpu: &mut Cpu)
    ensures
        *final(cpu) == spec_inc_r8_post(*old(cpu), Reg8::L),
{
    let value = cpu.l;
    cpu.half_carry = value % 16 == 15;
    cpu.l = value.wrapping_add(1);
    cpu.zero = cpu.l == 0;
    cpu.negative = false;
    cpu.move_program_counter_by(1);
    cpu.add_cycles(1);
}

/// Opcode 0x3C: `INC A` - increment the contents of register A by 1,
/// wrapping at 0xFF. Zero and Half-Carry are recomputed, Negative is
/// cleared, and Carry is left untouched; length 1 byte; 1 machine cycle.
pub fn inc_a(cpu: &mut Cpu)
    ensures
        *final(cpu) == spec_inc_r8_post(*old(cpu), Reg8::A),
{
    let value = cpu.a;
    cpu.half_carry = value % 16 == 15;
    cpu.a = value.wrapping_add(1);
    cpu.zero = cpu.a == 0;
    cpu.negative = false;
    cpu.move_program_counter_by(1);
    cpu.add_cycles(1);
}

/// Opcode 0x05: `DEC B` - decrement the contents of register B by 1,
/// wrapping at 0x00. Zero and Half-Carry are recomputed, Negative is
/// set, and Carry is left untouched; length 1 byte; 1 machine cycle.
pub fn dec_b(cpu: &mut Cpu)
    ensures
        *final(cpu) == spec_dec_r8_post(*old(cpu), Reg8::B),
{
    let value = cpu.b;
    cpu.half_carry = value % 16 == 0;
    cpu.b = value.wrapping_sub(1);
    cpu.zero = cpu.b == 0;
    cpu.negative = true;
    cpu.move_program_counter_by(1);
    cpu.add_cycles(1);
}

/// Opcode 0x0D: `DEC C` - decrement the contents of register C by 1,
/// wrapping at 0x00. Zero and Half-Carry are recomputed, Negative is
/// set, and Carry is left untouched; length 1 byte; 1 machine cycle.
pub fn dec_c(cpu: &mut Cpu)
    ensures
        *final(cpu) == spec_dec_r8_post(*old(cpu), Reg8::C),
{
    let value = cpu.c;
    cpu.half_carry = value % 16 == 0;
    cpu.c = value.wrapping_sub(1);
    cpu.zero = cpu.c == 0;
    cpu.negative = true;
    cpu.move_program_counter_by(1);
    cpu.add_cycles(1);
}

/// Opcode 0x15: `DEC D` - decrement the contents of register D by 1,
/// wrapping at 0x00. Zero and Half-Carry are recomputed, Negative is
/// set, and Carry is left untouched; length 1 byte; 1 machine cycle.
pub fn dec_d(cpu: &mut Cpu)
    ensures
        *final(cpu) == spec_dec_r8_post(*old(cpu), Reg8::D),
{
    let value = cpu.d;
    cpu.half_carry = value % 16 == 0;
    cpu.d = value.wrapping_sub(1);
    cpu.zero = cpu.d == 0;
    cpu.negative = true;
    cpu.move_program_counter_by(1);
    cpu.add_cycles(1);
}

/// Opcode 0x1D: `DEC E` - decrement the contents of register E by 1,
/// wrapping at 0x00. Zero and Half-Carry are recomputed, Negative is
/// set, and Carry is left untouched; length 1 byte; 1 machine cycle.
pub fn dec_e(cpu: &mut Cpu)
    ensures
        *final(cpu) == spec_dec_r8_post(*old(cpu), Reg8::E),
{
    let value = cpu.e;
    cpu.half_carry = value % 16 == 0;
    cpu.e = value.wrapping_sub(1);
    cpu.zero = cpu.e == 0;
    cpu.negative = true;
    cpu.move_program_counter_by(1);
    cpu.add_cycles(1);
}

/// Opcode 0x25: `DEC H` - decrement the contents of register H by 1,
/// wrapping at 0x00. Zero and Half-Carry are recomputed, Negative is
/// set, and Carry is left untouched; length 1 byte; 1 machine cycle.
pub fn dec_h(cpu: &mut Cpu)
    ensures
        *final(cpu) == spec_dec_r8_post(*old(cpu), Reg8::H),
{
    let value = cpu.h;
    cpu.half_carry = value % 16 == 0;
    cpu.h = value.wrapping_sub(1);
    cpu.zero = cpu.h == 0;
    cpu.negative = true;
    cpu.move_program_counter_by(1);
    cpu.add_cycles(1);
}

/// Opcode 0x2D: `DEC L` - decrement the contents of register L by 1,
/// wrapping at 0x00. Zero and Half-Carry are recomputed, Negative is
/// set, and Carry is left untouched; length 1 byte; 1 machine cycle.
pub fn dec_l(cpu: &mut Cpu)
    ensures
        *final(cpu) == spec_dec_r8_post(*old(cpu), Reg8::L),
{
    let value = cpu.l;
    cpu.half_carry = value % 16 == 0;
    cpu.l = value.wrapping_sub(1);
    cpu.zero = cpu.l == 0;
    cpu.negative = true;
    cpu.move_program_counter_by(1);
    cpu.add_cycles(1);
}

/// Opcode 0x3D: `DEC A` - decrement the contents of register A by 1,
/// wrapping at 0x00. Zero and Half-Carry are recomputed, Negative is
/// set, and Carry is left untouched; length 1 byte; 1 machine cycle.
pub fn dec_a(cpu: &mut Cpu)
    ensures
        *final(cpu) == spec_dec_r8_post(*old(cpu), Reg8::A),
{
    let value = cpu.a;
    cpu.half_carry = value % 16 == 0;
    cpu.a = value.wrapping_sub(1);
    cpu.zero = cpu.a == 0;
    cpu.negative = true;
    cpu.move_program_counter_by(1);
    cpu.add_cycles(1);
}

/// Opcode 0x06: `LD B,d8` - load the 8-bit immediate operand d8
/// into register B. No flags are affected; length 2 bytes;
/// 2 machine cycles.
pub fn ld_b_d8(cpu: &mut Cpu, memory: &Memory)
    requires
        memory.wf(),
    ensures
        *final(cpu) == spec_ld_r8_post(*old(cpu), Reg8::B, spec_imm8(memory@, old(cpu).program_counter), 2, 2),
{
    cpu.b = memory.read_byte_at(cpu.program_counter.wrapping_add(1));
    cpu.move_program_counter_by(2);
    cpu.add_cycles(2);
}

/// Opcode 0x0E: `LD C,d8` - load the 8-bit immediate operand d8
/// into register C. No flags are affected; length 2 bytes;
/// 2 machine cycles.
pub fn ld_c_d8(cpu: &mut Cpu, memory: &Memory)
    requires
        memory.wf(),
    ensures
        *final(cpu) == spec_ld_r8_post(*old(cpu), Reg8::C, spec_imm8(memory@, old(cpu).program_counter), 2, 2),
{
    cpu.c = memory.read_byte_at(cpu.program_counter.wrapping_add(1));
    cpu.move_program_counter_by(2);
    cpu.add_cycles(2);
}

/// Opcode 0x16: `LD D,d8` - load the 8-bit immediate operand d8
/// into register D. No flags are affected; length 2 bytes;
/// 2 machine cycles.
pub fn ld_d_d8(cpu: &mut Cpu, memory: &Memory)
    requires
        memory.wf(),
    ensures
        *final(cpu) == spec_ld_r8_post(*old(cpu), Reg8::D, spec_imm8(memory@, old(cpu).program_counter), 2, 2),
{
    cpu.d = memory.read_byte_at(cpu.program_counter.wrapping_add(1));
    cpu.move_program_counter_by(2);
    cpu.add_cycles(2);
}

/// Opcode 0x1E: `LD E,d8` - load the 8-bit immediate operand d8
/// into register E. No flags are affected; length 2 bytes;
/// 2 machine cycles.
pub fn ld_e_d8(cpu: &mut Cpu, memory: &Memory)
    requires
        memory.wf(),
    ensures
        *final(cpu) == spec_ld_r8_post(*old(cpu), Reg8::E, spec_imm8(memory@, old(cpu).program_counter), 2, 2),
{
    cpu.e = memory.read_byte_at(cpu.program_counter.wrapping_add(1));
    cpu.move_program_counter_by(2);
    cpu.add_cycles(2);
}

/// Opcode 0x26: `LD H,d8` - load the 8-bit immediate operand d8
/// into register H. No flags are affected; length 2 bytes;
/// 2 machine cycles.
pub fn ld_h_d8(cpu: &mut Cpu, memory: &Memory)
    requires
        memory.wf(),
    ensures
        *final(cpu) == spec_ld_r8_post(*old(cpu), Reg8::H, spec_imm8(memory@, old(cpu).program_counter), 2, 2),
{
    cpu.h = memory.read_byte_at(cpu.program_counter.wrapping_add(1));
    cpu.move_program_counter_by(2);
    cpu.add_cycles(2);
}

/// Opcode 0x2E: `LD L,d8` - load the 8-bit immediate operand d8
/// into register L. No flags are affected; length 2 bytes;
/// 2 machine cycles.
pub fn ld_l_d8(cpu: &mut Cpu, memory: &Memory)
    requires
        memory.wf(),
    ensures
        *final(cpu) == spec_ld_r8_post(*old(cpu), Reg8::L, spec_imm8(memory@, old(cpu).program_counter), 2, 2),
{
    cpu.l = memory.read_byte_at(cpu.program_counter.wrapping_add(1));
    cpu.move_program_counter_by(2);
    cpu.add_cycles(2);
}

/// Opcode 0x3E: `LD A,d8` - load the 8-bit immediate operand d8
/// into register A. No flags are affected; length 2 bytes;
/// 2 machine cycles.
pub fn ld_a_d8(cpu: &mut Cpu, memory: &Memory)
    requires
        memory.wf(),
    ensures
        *final(cpu) == spec_ld_r8_post(*old(cpu), Reg8::A, spec_imm8(memory@, old(cpu).program_counter), 2, 2),
{
    cpu.a = memory.read_byte_at(cpu.program_counter.wrapping_add(1));
    cpu.move_program_counter_by(2);
    cpu.add_cycles(2);
}

/// Opcode 0x07: `RLCA` - rotate the contents of register A to the left by
/// one position; the contents of bit 7 are placed in both the Carry flag
/// and bit 0 of register A. Zero, Negative and Half-Carry are cleared;
/// length 1 byte; 1 machine cycle.
pub fn rlca(cpu: &mut Cpu)
    ensures
        *final(cpu) == spec_rlca_post(*old(cpu)),
{
    let rotated_out = cpu.a >= 128;
    cpu.a = (cpu.a % 128) * 2 + (if rotated_out { 1 } else { 0 });
    cpu.zero = false;
    cpu.negative = false;
    cpu.half_carry = false;
    cpu.carry = rotated_out;
    cpu.move_program_counter_by(1);
    cpu.add_cycles(1);
}

/// Opcode 0x0F: `RRCA` - rotate the contents of register A to the right by
/// one position; the contents of bit 0 are placed in both the Carry flag
/// and bit 7 of register A. Zero, Negative and Half-Carry are cleared;
/// length 1 byte; 1 machine cycle.
pub fn rrca(cpu: &mut Cpu)
    ensures
        *final(cpu) == spec_rrca_post(*old(cpu)),
{
    let rotated_out = cpu.a % 2 == 1;
    cpu.a = cpu.a / 2 + (if rotated_out { 128 } else { 0 });
    cpu.zero = false;
    cpu.negative = false;
    cpu.half_carry = false;
    cpu.carry = rotated_out;
    cpu.move_program_counter_by(1);
    cpu.add_cycles(1);
}

/// Opcode 0x17: `RLA` - rotate the contents of register A to the left by
/// one position through the Carry flag: the previous Carry moves into bit
/// 0 and the previous bit 7 becomes the new Carry. Zero, Negative and
/// Half-Carry are cleared; length 1 byte; 1 machine cycle.
pub fn rla(cpu: &mut Cpu)
    ensures
        *final(cpu) == spec_rla_post(*old(cpu)),
{
    let carry_in: u8 = if cpu.carry { 1 } else { 0 };
    cpu.carry = cpu.a >= 128;
    cpu.a = (cpu.a % 128) * 2 + carry_in;
    cpu.zero = false;
    cpu.negative = false;
    cpu.half_carry = false;
    cpu.move_program_counter_by(1);
    cpu.add_cycles(1);
}

/// Opcode 0x1F: `RRA` - rotate the contents of register A to the right by
/// one position through the Carry flag: the previous Carry moves into bit
/// 7 and the previous bit 0 becomes the new Carry. Zero, Negative and
/// Half-Carry are cleared; length 1 byte; 1 machine cycle.
pub fn rra(cpu: &mut Cpu)
    ensures
        *final(cpu) == spec_rra_post(*old(cpu)),
{
    let carry_in: u8 = if cpu.carry { 128 } else { 0 };
    cpu.carry = cpu.a % 2 == 1;
    cpu.a = cpu.a / 2 + carry_in;
    cpu.zero = false;
    cpu.negative = false;
    cpu.half_carry = false;
    cpu.move_program_counter_by(1);
    cpu.add_cycles(1);
}

/// Opcode 0x08: `LD (a16),SP` - store the lower byte of the stack pointer
/// SP at the address specified by the 16-bit immediate operand a16, and
/// the upper byte of SP at address a16 + 1 (wrapping modulo 2^16). No
/// flags are affected; length 3 bytes; 5 machine cycles.
pub fn ld_a16_sp(cpu: &mut Cpu, memory: &mut Memory)
    requires
        old(memory).wf(),
    ensures
        final(memory).wf(),
        *final(cpu) == spec_advance(*old(cpu), 3, 5),
        final(memory)@ == old(memory)@.update(spec_imm16(old(memory)@, old(cpu).program_counter) as int, spec_lsb(old(cpu).stack_pointer)).update(wrap_add_u16(spec_imm16(old(memory)@, old(cpu).program_counter), 1) as int, spec_msb(old(cpu).stack_pointer)),
{
    let address = memory.read_16_bit_value_at(cpu.program_counter.wrapping_add(1));
    memory.write_16_bit_value_at(address, cpu.stack_pointer);
    cpu.move_program_counter_by(3);
    cpu.add_cycles(5);
}

/// Opcode 0x09: `ADD HL,BC` - add the contents of register pair BC
/// to register pair HL and store the result in HL. Negative is cleared,
/// Half-Carry is the carry out of bit 11, Carry is the carry out of bit
/// 15, and Zero is preserved; length 1 byte; 2 machine cycles.
pub fn add_hl_bc(cpu: &mut Cpu)
    ensures
        *final(cpu) == spec_add_hl_r16_post(*old(cpu), Reg16::BC),
{
    let value = cpu.bc();
    let hl = cpu.hl();
    cpu.negative = false;
    cpu.half_carry = hl % 0x1000 + value % 0x1000 > 0xFFF;
    cpu.carry = hl as u32 + value as u32 > 0xFFFF;
    cpu.set_hl(hl.wrapping_add(value));
    cpu.move_program_counter_by(1);
    cpu.add_cycles(2);
}

/// Opcode 0x19: `ADD HL,DE` - add the contents of register pair DE
/// to register pair HL and store the result in HL. Negative is cleared,
/// Half-Carry is the carry out of bit 11, Carry is the carry out of bit
/// 15, and Zero is preserved; length 1 byte; 2 machine cycles.
pub fn add_hl_de(cpu: &mut Cpu)
    ensures
        *final(cpu) == spec_add_hl_r16_post(*old(cpu), Reg16::DE),
{
    let value = cpu.de();
    let hl = cpu.hl();
    cpu.negative = false;
    cpu.half_carry = hl % 0x1000 + value % 0x1000 > 0xFFF;
    cpu.carry = hl as u32 + value as u32 > 0xFFFF;
    cpu.set_hl(hl.wrapping_add(value));
    cpu.move_program_counter_by(1);
    cpu.add_cycles(2);
}

/// Opcode 0x29: `ADD HL,HL` - add the contents of register pair HL
/// to register pair HL and store the result in HL. Negative is cleared,
/// Half-Carry is the carry out of bit 11, Carry is the carry out of bit
/// 15, and Zero is preserved; length 1 byte; 2 machine cycles.
pub fn add_hl_hl(cpu: &mut Cpu)
    ensures
        *final(cpu) == spec_add_hl_r16_post(*old(cpu), Reg16::HL),
{
    let value = cpu.hl();
    let hl = cpu.hl();
    cpu.negative = false;
    cpu.half_carry = hl % 0x1000 + value % 0x1000 > 0xFFF;
    cpu.carry = hl as u32 + value as u32 > 0xFFFF;
    cpu.set_hl(hl.wrapping_add(value));
    cpu.move_program_counter_by(1);
    cpu.add_cycles(2);
}

/// Opcode 0x39: `ADD HL,SP` - add the contents of the stack pointer SP
/// to register pair HL and store the result in HL. Negative is cleared,
/// Half-Carry is the carry out of bit 11, Carry is the carry out of bit
/// 15, and Zero is preserved; length 1 byte; 2 machine cycles.
pub fn add_hl_sp(cpu: &mut Cpu)
    ensures
        *final(cpu) == spec_add_hl_r16_post(*old(cpu), Reg16::SP),
{
    let value = cpu.stack_pointer;
    let hl = cpu.hl();
    cpu.negative = false;
    cpu.half_carry = hl % 0x1000 + value % 0x1000 > 0xFFF;
    cpu.carry = hl as u32 + value as u32 > 0xFFFF;
    cpu.set_hl(hl.wrapping_add(value));
    cpu.move_program_counter_by(1);
    cpu.add_cycles(2);
}

/// Opcode 0x0A: `LD A,(BC)` - load the byte of memory specified by
/// register pair BC into register A. No flags are affected; length
/// 1 byte; 2 machine cycles.
pub fn ld_a_bc(cpu: &mut Cpu, memory: &Memory)
    requires
        memory.wf(),
    ensures
        *final(cpu) == spec_ld_r8_post(*old(cpu), Reg8::A, memory@[old(cpu).spec_bc() as int], 1, 2),
{
    let address = cpu.bc();
    cpu.a = memory.read_byte_at(address);
    cpu.move_program_counter_by(1);
    cpu.add_cycles(2);
}

/// Opcode 0x1A: `LD A,(DE)` - load the byte of memory specified by
/// register pair DE into register A. No flags are affected; length
/// 1 byte; 2 machine cycles.
pub fn ld_a_de(cpu: &mut Cpu, memory: &Memory)
    requires
        memory.wf(),
    ensures
        *final(cpu) == spec_ld_r8_post(*old(cpu), Reg8::A, memory@[old(cpu).spec_de() as int], 1, 2),
{
    let address = cpu.de();
    cpu.a = memory.read_byte_at(address);
    cpu.move_program_counter_by(1);
    cpu.add_cycles(2);
}

/// Opcode 0x10: `STOP` - enter Stop mode, but only after verifying that no
/// interrupt enable bit (bits 0 to 4 of the byte at 0xFFFF) is set; with
/// any of them set the run-state is left alone. No flags are affected;
/// length 2 bytes; 1 machine cycle. Leaving Stop mode is driven from
/// outside the core by a reset.
pub fn stop(cpu: &mut Cpu, memory: &Memory)
    requires
        memory.wf(),
    ensures
        *final(cpu) == spec_stop_post(*old(cpu), memory@[INTERRUPT_ENABLE_ADDRESS as int]),
{
    let enabled = memory.read_byte_at(INTERRUPT_ENABLE_ADDRESS);
    if enabled % 32 == 0 {
        cpu.state = CpuState::Stop;
    }
    cpu.move_program_counter_by(2);
    cpu.add_cycles(1);
}

/// Opcode 0x76: `HALT` - enter Halt mode; the program counter moves past
/// the instruction first. No flags are affected; length 1 byte; 1 machine
/// cycle. Leaving Halt mode is driven from outside the core by an
/// interrupt or a reset.
pub fn halt(cpu: &mut Cpu)
    ensures
        *final(cpu) == spec_halt_post(*old(cpu)),
{
    cpu.state = CpuState::Halt;
    cpu.move_program_counter_by(1);
    cpu.add_cycles(1);
}

/// Opcode 0x18: `JR s8` - jump unconditionally by the signed 8-bit
/// immediate operand, measured from the instruction that follows (the
/// program counter plus 2), wrapping modulo 2^16. A taken jump costs 3
/// machine cycles, a skipped one 2; no flags are affected; length 2
/// bytes.
pub fn jr_s8(cpu: &mut Cpu, memory: &Memory)
    requires
        memory.wf(),
    ensures
        *final(cpu) == spec_jr_post(*old(cpu), spec_imm8(memory@, old(cpu).program_counter), true),
{
    let offset = memory.read_byte_at(cpu.program_counter.wrapping_add(1));
    let base = cpu.program_counter.wrapping_add(2).wrapping_add(offset as u16);
    cpu.program_counter = if offset < 128 {
        base
    } else {
        base.wrapping_sub(256)
    };
    cpu.add_cycles(3);
}

/// Opcode 0x20: `JR NZ,s8` - jump if the Zero flag is clear by the signed 8-bit
/// immediate operand, measured from the instruction that follows (the
/// program counter plus 2), wrapping modulo 2^16. A taken jump costs 3
/// machine cycles, a skipped one 2; no flags are affected; length 2
/// bytes.
pub fn jr_nz_s8(cpu: &mut Cpu, memory: &Memory)
    requires
        memory.wf(),
    ensures
        *final(cpu) == spec_jr_post(*old(cpu), spec_imm8(memory@, old(cpu).program_counter), !old(cpu).zero),
{
    if !cpu.zero {
        let offset = memory.read_byte_at(cpu.program_counter.wrapping_add(1));
        let base = cpu.program_counter.wrapping_add(2).wrapping_add(offset as u16);
        cpu.program_counter = if offset < 128 {
            base
        } else {
            base.wrapping_sub(256)
        };
        cpu.add_cycles(3);
    } else {
        cpu.move_program_counter_by(2);
        cpu.add_cycles(2);
    }
}

/// Opcode 0x28: `JR Z,s8` - jump if the Zero flag is set by the signed 8-bit
/// immediate operand, measured from the instruction that follows (the
/// program counter plus 2), wrapping modulo 2^16. A taken jump costs 3
/// machine cycles, a skipped one 2; no flags are affected; length 2
/// bytes.
pub fn jr_z_s8(cpu: &mut Cpu, memory: &Memory)
    requires
        memory.wf(),
    ensures
        *final(cpu) == spec_jr_post(*old(cpu), spec_imm8(memory@, old(cpu).program_counter), old(cpu).zero),
{
    if cpu.zero {
        let offset = memory.read_byte_at(cpu.program_counter.wrapping_add(1));
        let base = cpu.program_counter.wrapping_add(2).wrapping_add(offset as u16);
        cpu.program_counter = if offset < 128 {
            base
        } else {
            base.wrapping_sub(256)
        };
        cpu.add_cycles(3);
    } else {
        cpu.move_program_counter_by(2);
        cpu.add_cycles(2);
    }
}

/// Opcode 0x30: `JR NC,s8` - jump if the Carry flag is clear by the signed 8-bit
/// immediate operand, measured from the instruction that follows (the
/// program counter plus 2), wrapping modulo 2^16. A taken jump costs 3
/// machine cycles, a skipped one 2; no flags are affected; length 2
/// bytes.
pub fn jr_nc_s8(cpu: &mut Cpu, memory: &Memory)
    requires
        memory.wf(),
    ensures
        *final(cpu) == spec_jr_post(*old(cpu), spec_imm8(memory@, old(cpu).program_counter), !old(cpu).carry),
{
    if !cpu.carry {
        let offset = memory.read_byte_at(cpu.program_counter.wrapping_add(1));
        let base = cpu.program_counter.wrapping_add(2).wrapping_add(offset as u16);
        cpu.program_counter = if offset < 128 {
            base
        } else {
            base.wrapping_sub(256)
        };
        cpu.add_cycles(3);
    } else {
        cpu.move_program_counter_by(2);
        cpu.add_cycles(2);
    }
}

/// Opcode 0x38: `JR C,s8` - jump if the Carry flag is set by the signed 8-bit
/// immediate operand, measured from the instruction that follows (the
/// program counter plus 2), wrapping modulo 2^16. A taken jump costs 3
/// machine cycles, a skipped one 2; no flags are affected; length 2
/// bytes.
pub fn jr_c_s8(cpu: &mut Cpu, memory: &Memory)
    requires
        memory.wf(),
    ensures
        *final(cpu) == spec_jr_post(*old(cpu), spec_imm8(memory@, old(cpu).program_counter), old(cpu).carry),
{
    if cpu.carry {
        let offset = memory.read_byte_at(cpu.program_counter.wrapping_add(1));
        let base = cpu.program_counter.wrapping_add(2).wrapping_add(offset as u16);
        cpu.program_counter = if offset < 128 {
            base
        } else {
            base.wrapping_sub(256)
        };
        cpu.add_cycles(3);
    } else {
        cpu.move_program_counter_by(2);
        cpu.add_cycles(2);
    }
}

/// Opcode 0x22: `LD (HL+),A` - store the contents of register A in the
/// memory location specified by register pair HL, and simultaneously
/// increment HL. No flags are affected; length 1 byte; 2 machine cycles.
pub fn ld_hl_inc_a(cpu: &mut Cpu, memory: &mut Memory)
    requires
        old(memory).wf(),
    ensures
        final(memory).wf(),
        *final(cpu) == spec_ld_hl_step_post(*old(cpu), 1),
        final(memory)@ == old(memory)@.update(old(cpu).spec_hl() as int, old(cpu).a),
{
    let address = cpu.hl();
    memory.write_byte_at(address, cpu.a);
    cpu.set_hl(address.wrapping_add(1));
    cpu.move_program_counter_by(1);
    cpu.add_cycles(2);
}

/// Opcode 0x32: `LD (HL-),A` - store the contents of register A in the
/// memory location specified by register pair HL, and simultaneously
/// decrement HL. No flags are affected; length 1 byte; 2 machine cycles.
pub fn ld_hl_dec_a(cpu: &mut Cpu, memory: &mut Memory)
    requires
        old(memory).wf(),
    ensures
        final(memory).wf(),
        *final(cpu) == spec_ld_hl_step_post(*old(cpu), -1),
        final(memory)@ == old(memory)@.update(old(cpu).spec_hl() as int, old(cpu).a),
{
    let address = cpu.hl();
    memory.write_byte_at(address, cpu.a);
    cpu.set_hl(address.wrapping_sub(1));
    cpu.move_program_counter_by(1);
    cpu.add_cycles(2);
}

/// Opcode 0x2A: `LD A,(HL+)` - load the byte of memory specified by
/// register pair HL into register A, and simultaneously increment HL. No
/// flags are affected; length 1 byte; 2 machine cycles.
pub fn ld_a_hl_inc(cpu: &mut Cpu, memory: &Memory)
    requires
        memory.wf(),
    ensures
        *final(cpu) == spec_ld_a_hl_step_post(*old(cpu), memory@[old(cpu).spec_hl() as int], 1),
{
    let address = cpu.hl();
    cpu.a = memory.read_byte_at(address);
    cpu.set_hl(address.wrapping_add(1));
    cpu.move_program_counter_by(1);
    cpu.add_cycles(2);
}

/// Opcode 0x3A: `LD A,(HL-)` - load the byte of memory specified by
/// register pair HL into register A, and simultaneously decrement HL. No
/// flags are affected; length 1 byte; 2 machine cycles.
pub fn ld_a_hl_dec(cpu: &mut Cpu, memory: &Memory)
    requires
        memory.wf(),
    ensures
        *final(cpu) == spec_ld_a_hl_step_post(*old(cpu), memory@[old(cpu).spec_hl() as int], -1),
{
    let address = cpu.hl();
    cpu.a = memory.read_byte_at(address);
    cpu.set_hl(address.wrapping_sub(1));
    cpu.move_program_counter_by(1);
    cpu.add_cycles(2);
}

/// Opcode 0x34: `INC (HL)` - increment the byte of memory specified by
/// register pair HL by 1, wrapping at 0xFF. Zero and Half-Carry are
/// recomputed from the old byte, Negative is cleared, and Carry is left
/// untouched; length 1 byte; 3 machine cycles.
pub fn inc_hl_address(cpu: &mut Cpu, memory: &mut Memory)
    requires
        old(memory).wf(),
    ensures
        final(memory).wf(),
        *final(cpu) == spec_inc_at_hl_flags_post(*old(cpu), old(memory)@[old(cpu).spec_hl() as int]),
        final(memory)@ == old(memory)@.update(old(cpu).spec_hl() as int, wrap_add_u8(old(memory)@[old(cpu).spec_hl() as int], 1)),
{
    let address = cpu.hl();
    let value = memory.read_byte_at(address);
    memory.write_byte_at(address, value.wrapping_add(1));
    cpu.zero = value.wrapping_add(1) == 0;
    cpu.negative = false;
    cpu.half_carry = value % 16 == 15;
    cpu.move_program_counter_by(1);
    cpu.add_cycles(3);
}

/// Opcode 0x35: `DEC (HL)` - decrement the byte of memory specified by
/// register pair HL by 1, wrapping at 0x00. Zero and Half-Carry are
/// recomputed from the old byte, Negative is set, and Carry is left
/// untouched; length 1 byte; 3 machine cycles.
pub fn dec_hl_address(cpu: &mut Cpu, memory: &mut Memory)
    requires
        old(memory).wf(),
    ensures
        final(memory).wf(),
        *final(cpu) == spec_dec_at_hl_flags_post(*old(cpu), old(memory)@[old(cpu).spec_hl() as int]),
        final(memory)@ == old(memory)@.update(old(cpu).spec_hl() as int, wrap_sub_u8(old(memory)@[old(cpu).spec_hl() as int], 1)),
{
    let address = cpu.hl();
    let value = memory.read_byte_at(address);
    memory.write_byte_at(address, value.wrapping_sub(1));
    cpu.zero = value.wrapping_sub(1) == 0;
    cpu.negative = true;
    cpu.half_carry = value % 16 == 0;
    cpu.move_program_counter_by(1);
    cpu.add_cycles(3);
}

/// Opcode 0x36: `LD (HL),d8` - store the 8-bit immediate operand d8 in the
/// memory location specified by register pair HL. No flags are affected;
/// length 2 bytes; 3 machine cycles.
pub fn ld_hl_d8(cpu: &mut Cpu, memory: &mut Memory)
    requires
        old(memory).wf(),
    ensures
        final(memory).wf(),
        *final(cpu) == spec_advance(*old(cpu), 2, 3),
        final(memory)@ == old(memory)@.update(old(cpu).spec_hl() as int, spec_imm8(old(memory)@, old(cpu).program_counter)),
{
    let value = memory.read_byte_at(cpu.program_counter.wrapping_add(1));
    let address = cpu.hl();
    memory.write_byte_at(address, value);
    cpu.move_program_counter_by(2);
    cpu.add_cycles(3);
}

/// Opcode 0x2F: `CPL` - take the one's complement (flip all bits) of the
/// contents of register A. Negative and Half-Carry are set, Zero and
/// Carry are preserved; length 1 byte; 1 machine cycle.
pub fn cpl(cpu: &mut Cpu)
    ensures
        *final(cpu) == spec_cpl_post(*old(cpu)),
{
    cpu.a = 255 - cpu.a;
    cpu.negative = true;
    cpu.half_carry = true;
    cpu.move_program_counter_by(1);
    cpu.add_cycles(1);
}

/// Opcode 0x37: `SCF` - set the Carry flag. Negative and Half-Carry are
/// cleared, Zero is preserved; length 1 byte; 1 machine cycle.
pub fn scf(cpu: &mut Cpu)
    ensures
        *final(cpu) == spec_scf_post(*old(cpu)),
{
    cpu.carry = true;
    cpu.negative = false;
    cpu.half_carry = false;
    cpu.move_program_counter_by(1);
    cpu.add_cycles(1);
}

/// Opcode 0x3F: `CCF` - flip the Carry flag. Negative and Half-Carry are
/// cleared, Zero is preserved; length 1 byte; 1 machine cycle.
pub fn ccf(cpu: &mut Cpu)
    ensures
        *final(cpu) == spec_ccf_post(*old(cpu)),
{
    cpu.carry = !cpu.carry;
    cpu.negative = false;
    cpu.half_carry = false;
    cpu.move_program_counter_by(1);
    cpu.add_cycles(1);
}

/// Opcode 0x40: `LD B,B` - copy the contents of register B into
/// register B. No flags are affected; length 1 byte; 1 machine
/// cycle.
pub fn ld_b_b(cpu: &mut Cpu)
    ensures
        *final(cpu) == spec_ld_r8_post(*old(cpu), Reg8::B, old(cpu).b, 1, 1),
{
    cpu.b = cpu.b;
    cpu.move_program_counter_by(1);
    cpu.add_cycles(1);
}

/// Opcode 0x41: `LD B,C` - copy the contents of register C into
/// register B. No flags are affected; length 1 byte; 1 machine
/// cycle.
pub fn ld_b_c(cpu: &mut Cpu)
    ensures
        *final(cpu) == spec_ld_r8_post(*old(cpu), Reg8::B, old(cpu).c, 1, 1),
{
    cpu.b = cpu.c;
    cpu.move_program_counter_by(1);
    cpu.add_cycles(1);
}

/// Opcode 0x42: `LD B,D` - copy the contents of register D into
/// register B. No flags are affected; length 1 byte; 1 machine
/// cycle.
pub fn ld_b_d(cpu: &mut Cpu)
    ensures
        *final(cpu) == spec_ld_r8_post(*old(cpu), Reg8::B, old(cpu).d, 1, 1),
{
    cpu.b = cpu.d;
    cpu.move_program_counter_by(1);
    cpu.add_cycles(1);
}

/// Opcode 0x43: `LD B,E` - copy the contents of register E into
/// register B. No flags are affected; length 1 byte; 1 machine
/// cycle.
pub fn ld_b_e(cpu: &mut Cpu)
    ensures
        *final(cpu) == spec_ld_r8_post(*old(cpu), Reg8::B, old(cpu).e, 1, 1),
{
    cpu.b = cpu.e;
    cpu.move_program_counter_by(1);
    cpu.add_cycles(1);
}

/// Opcode 0x44: `LD B,H` - copy the contents of register H into
/// register B. No flags are affected; length 1 byte; 1 machine
/// cycle.
pub fn ld_b_h(cpu: &mut Cpu)
    ensures
        *final(cpu) == spec_ld_r8_post(*old(cpu), Reg8::B, old(cpu).h, 1, 1),
{
    cpu.b = cpu.h;
    cpu.move_program_counter_by(1);
    cpu.add_cycles(1);
}

/// Opcode 0x45: `LD B,L` - copy the contents of register L into
/// register B. No flags are affected; length 1 byte; 1 machine
/// cycle.
pub fn ld_b_l(cpu: &mut Cpu)
    ensures
        *final(cpu) == spec_ld_r8_post(*old(cpu), Reg8::B, old(cpu).l, 1, 1),
{
    cpu.b = cpu.l;
    cpu.move_program_counter_by(1);
    cpu.add_cycles(1);
}

/// Opcode 0x46: `LD B,(HL)` - load the byte of memory specified by
/// register pair HL into register B. No flags are affected; length
/// 1 byte; 2 machine cycles.
pub fn ld_b_hl(cpu: &mut Cpu, memory: &Memory)
    requires
        memory.wf(),
    ensures
        *final(cpu) == spec_ld_r8_post(*old(cpu), Reg8::B, memory@[old(cpu).spec_hl() as int], 1, 2),
{
    let address = cpu.hl();
    cpu.b = memory.read_byte_at(address);
    cpu.move_program_counter_by(1);
    cpu.add_cycles(2);
}

/// Opcode 0x47: `LD B,A` - copy the contents of register A into
/// register B. No flags are affected; length 1 byte; 1 machine
/// cycle.
pub fn ld_b_a(cpu: &mut Cpu)
    ensures
        *final(cpu) == spec_ld_r8_post(*old(cpu), Reg8::B, old(cpu).a, 1, 1),
{
    cpu.b = cpu.a;
    cpu.move_program_counter_by(1);
    cpu.add_cycles(1);
}

/// Opcode 0x48: `LD C,B` - copy the contents of register B into
/// register C. No flags are affected; length 1 byte; 1 machine
/// cycle.
pub fn ld_c_b(cpu: &mut Cpu)
    ensures
        *final(cpu) == spec_ld_r8_post(*old(cpu), Reg8::C, old(cpu).b, 1, 1),
{
    cpu.c = cpu.b;
    cpu.move_program_counter_by(1);
    cpu.add_cycles(1);
}

/// Opcode 0x49: `LD C,C` - copy the contents of register C into
/// register C. No flags are affected; length 1 byte; 1 machine
/// cycle.
pub fn ld_c_c(cpu: &mut Cpu)
    ensures
        *final(cpu) == spec_ld_r8_post(*old(cpu), Reg8::C, old(cpu).c, 1, 1),
{
    cpu.c = cpu.c;
    cpu.move_program_counter_by(1);
    cpu.add_cycles(1);
}

/// Opcode 0x4A: `LD C,D` - copy the contents of register D into
/// register C. No flags are affected; length 1 byte; 1 machine
/// cycle.
pub fn ld_c_d(cpu: &mut Cpu)
    ensures
        *final(cpu) == spec_ld_r8_post(*old(cpu), Reg8::C, old(cpu).d, 1, 1),
{
    cpu.c = cpu.d;
    cpu.move_program_counter_by(1);
    cpu.add_cycles(1);
}

/// Opcode 0x4B: `LD C,E` - copy the contents of register E into
/// register C. No flags are affected; length 1 byte; 1 machine
/// cycle.
pub fn ld_c_e(cpu: &mut Cpu)
    ensures
        *final(cpu) == spec_ld_r8_post(*old(cpu), Reg8::C, old(cpu).e, 1, 1),
{
    cpu.c = cpu.e;
    cpu.move_program_counter_by(1);
    cpu.add_cycles(1);
}

/// Opcode 0x4C: `LD C,H` - copy the contents of register H into
/// register C. No flags are affected; length 1 byte; 1 machine
/// cycle.
pub fn ld_c_h(cpu: &mut Cpu)
    ensures
        *final(cpu) == spec_ld_r8_post(*old(cpu), Reg8::C, old(cpu).h, 1, 1),
{
    cpu.c = cpu.h;
    cpu.move_program_counter_by(1);
    cpu.add_cycles(1);
}

/// Opcode 0x4D: `LD C,L` - copy the contents of register L into
/// register C. No flags are affected; length 1 byte; 1 machine
/// cycle.
pub fn ld_c_l(cpu: &mut Cpu)
    ensures
        *final(cpu) == spec_ld_r8_post(*old(cpu), Reg8::C, old(cpu).l, 1, 1),
{
    cpu.c = cpu.l;
    cpu.move_program_counter_by(1);
    cpu.add_cycles(1);
}

/// Opcode 0x4E: `LD C,(HL)` - load the byte of memory specified by
/// register pair HL into register C. No flags are affected; length
/// 1 byte; 2 machine cycles.
pub fn ld_c_hl(cpu: &mut Cpu, memory: &Memory)
    requires
        memory.wf(),
    ensures
        *final(cpu) == spec_ld_r8_post(*old(cpu), Reg8::C, memory@[old(cpu).spec_hl() as int], 1, 2),
{
    let address = cpu.hl();
    cpu.c = memory.read_byte_at(address);
    cpu.move_program_counter_by(1);
    cpu.add_cycles(2);
}

/// Opcode 0x4F: `LD C,A` - copy the contents of register A into
/// register C. No flags are affected; length 1 byte; 1 machine
/// cycle.
pub fn ld_c_a(cpu: &mut Cpu)
    ensures
        *final(cpu) == spec_ld_r8_post(*old(cpu), Reg8::C, old(cpu).a, 1, 1),
{
    cpu.c = cpu.a;
    cpu.move_program_counter_by(1);
    cpu.add_cycles(1);
}

/// Opcode 0x50: `LD D,B` - copy the contents of register B into
/// register D. No flags are affected; length 1 byte; 1 machine
/// cycle.
pub fn ld_d_b(cpu: &mut Cpu)
    ensures
        *final(cpu) == spec_ld_r8_post(*old(cpu), Reg8::D, old(cpu).b, 1, 1),
{
    cpu.d = cpu.b;
    cpu.move_program_counter_by(1);
    cpu.add_cycles(1);
}

/// Opcode 0x51: `LD D,C` - copy the contents of register C into
/// register D. No flags are affected; length 1 byte; 1 machine
/// cycle.
pub fn ld_d_c(cpu: &mut Cpu)
    ensures
        *final(cpu) == spec_ld_r8_post(*old(cpu), Reg8::D, old(cpu).c, 1, 1),
{
    cpu.d = cpu.c;
    cpu.move_program_counter_by(1);
    cpu.add_cycles(1);
}

/// Opcode 0x52: `LD D,D` - copy the contents of register D into
/// register D. No flags are affected; length 1 byte; 1 machine
/// cycle.
pub fn ld_d_d(cpu: &mut Cpu)
    ensures
        *final(cpu) == spec_ld_r8_post(*old(cpu), Reg8::D, old(cpu).d, 1, 1),
{
    cpu.d = cpu.d;
    cpu.move_program_counter_by(1);
    cpu.add_cycles(1);
}

/// Opcode 0x53: `LD D,E` - copy the contents of register E into
/// register D. No flags are affected; length 1 byte; 1 machine
/// cycle.
pub fn ld_d_e(cpu: &mut Cpu)
    ensures
        *final(cpu) == spec_ld_r8_post(*old(cpu), Reg8::D, old(cpu).e, 1, 1),
{
    cpu.d = cpu.e;
    cpu.move_program_counter_by(1);
    cpu.add_cycles(1);
}

/// Opcode 0x54: `LD D,H` - copy the contents of register H into
/// register D. No flags are affected; length 1 byte; 1 machine
/// cycle.
pub fn ld_d_h(cpu: &mut Cpu)
    ensures
        *final(cpu) == spec_ld_r8_post(*old(cpu), Reg8::D, old(cpu).h, 1, 1),
{
    cpu.d = cpu.h;
    cpu.move_program_counter_by(1);
    cpu.add_cycles(1);
}

/// Opcode 0x55: `LD D,L` - copy the contents of register L into
/// register D. No flags are affected; length 1 byte; 1 machine
/// cycle.
pub fn ld_d_l(cpu: &mut Cpu)
    ensures
        *final(cpu) == spec_ld_r8_post(*old(cpu), Reg8::D, old(cpu).l, 1, 1),
{
    cpu.d = cpu.l;
    cpu.move_program_counter_by(1);
    cpu.add_cycles(1);
}

/// Opcode 0x56: `LD D,(HL)` - load the byte of memory specified by
/// register pair HL into register D. No flags are affected; length
/// 1 byte; 2 machine cycles.
pub fn ld_d_hl(cpu: &mut Cpu, memory: &Memory)
    requires
        memory.wf(),
    ensures
        *final(cpu) == spec_ld_r8_post(*old(cpu), Reg8::D, memory@[old(cpu).spec_hl() as int], 1, 2),
{
    let address = cpu.hl();
    cpu.d = memory.read_byte_at(address);
    cpu.move_program_counter_by(1);
    cpu.add_cycles(2);
}

/// Opcode 0x57: `LD D,A` - copy the contents of register A into
/// register D. No flags are affected; length 1 byte; 1 machine
/// cycle.
pub fn ld_d_a(cpu: &mut Cpu)
    ensures
        *final(cpu) == spec_ld_r8_post(*old(cpu), Reg8::D, old(cpu).a, 1, 1),
{
    cpu.d = cpu.a;
    cpu.move_program_counter_by(1);
    cpu.add_cycles(1);
}

/// Opcode 0x58: `LD E,B` - copy the contents of register B into
/// register E. No flags are affected; length 1 byte; 1 machine
/// cycle.
pub fn ld_e_b(cpu: &mut Cpu)
    ensures
        *final(cpu) == spec_ld_r8_post(*old(cpu), Reg8::E, old(cpu).b, 1, 1),
{
    cpu.e = cpu.b;
    cpu.move_program_counter_by(1);
    cpu.add_cycles(1);
}

/// Opcode 0x59: `LD E,C` - copy the contents of register C into
/// register E. No flags are affected; length 1 byte; 1 machine
/// cycle.
pub fn ld_e_c(cpu: &mut Cpu)
    ensures
        *final(cpu) == spec_ld_r8_post(*old(cpu), Reg8::E, old(cpu).c, 1, 1),
{
    cpu.e = cpu.c;
    cpu.move_program_counter_by(1);
    cpu.add_cycles(1);
}

/// Opcode 0x5A: `LD E,D` - copy the contents of register D into
/// register E. No flags are affected; length 1 byte; 1 machine
/// cycle.
pub fn ld_e_d(cpu: &mut Cpu)
    ensures
        *final(cpu) == spec_ld_r8_post(*old(cpu), Reg8::E, old(cpu).d, 1, 1),
{
    cpu.e = cpu.d;
    cpu.move_program_counter_by(1);
    cpu.add_cycles(1);
}

/// Opcode 0x5B: `LD E,E` - copy the contents of register E into
/// register E. No flags are affected; length 1 byte; 1 machine
/// cycle.
pub fn ld_e_e(cpu: &mut Cpu)
    ensures
        *final(cpu) == spec_ld_r8_post(*old(cpu), Reg8::E, old(cpu).e, 1, 1),
{
    cpu.e = cpu.e;
    cpu.move_program_counter_by(1);
    cpu.add_cycles(1);
}

/// Opcode 0x5C: `LD E,H` - copy the contents of register H into
/// register E. No flags are affected; length 1 byte; 1 machine
/// cycle.
pub fn ld_e_h(cpu: &mut Cpu)
    ensures
        *final(cpu) == spec_ld_r8_post(*old(cpu), Reg8::E, old(cpu).h, 1, 1),
{
    cpu.e = cpu.h;
    cpu.move_program_counter_by(1);
    cpu.add_cycles(1);
}

/// Opcode 0x5D: `LD E,L` - copy the contents of register L into
/// register E. No flags are affected; length 1 byte; 1 machine
/// cycle.
pub fn ld_e_l(cpu: &mut Cpu)
    ensures
        *final(cpu) == spec_ld_r8_post(*old(cpu), Reg8::E, old(cpu).l, 1, 1),
{
    cpu.e = cpu.l;
    cpu.move_program_counter_by(1);
    cpu.add_cycles(1);
}

/// Opcode 0x5E: `LD E,(HL)` - load the byte of memory specified by
/// register pair HL into register E. No flags are affected; length
/// 1 byte; 2 machine cycles.
pub fn ld_e_hl(cpu: &mut Cpu, memory: &Memory)
    requires
        memory.wf(),
    ensures
        *final(cpu) == spec_ld_r8_post(*old(cpu), Reg8::E, memory@[old(cpu).spec_hl() as int], 1, 2),
{
    let address = cpu.hl();
    cpu.e = memory.read_byte_at(address);
    cpu.move_program_counter_by(1);
    cpu.add_cycles(2);
}

/// Opcode 0x5F: `LD E,A` - copy the contents of register A into
/// register E. No flags are affected; length 1 byte; 1 machine
/// cycle.
pub fn ld_e_a(cpu: &mut Cpu)
    ensures
        *final(cpu) == spec_ld_r8_post(*old(cpu), Reg8::E, old(cpu).a, 1, 1),
{
    cpu.e = cpu.a;
    cpu.move_program_counter_by(1);
    cpu.add_cycles(1);
}

/// Opcode 0x60: `LD H,B` - copy the contents of register B into
/// register H. No flags are affected; length 1 byte; 1 machine
/// cycle.
pub fn ld_h_b(cpu: &mut Cpu)
    ensures
        *final(cpu) == spec_ld_r8_post(*old(cpu), Reg8::H, old(cpu).b, 1, 1),
{
    cpu.h = cpu.b;
    cpu.move_program_counter_by(1);
    cpu.add_cycles(1);
}

/// Opcode 0x61: `LD H,C` - copy the contents of register C into
/// register H. No flags are affected; length 1 byte; 1 machine
/// cycle.
pub fn ld_h_c(cpu: &mut Cpu)
    ensures
        *final(cpu) == spec_ld_r8_post(*old(cpu), Reg8::H, old(cpu).c, 1, 1),
{
    cpu.h = cpu.c;
    cpu.move_program_counter_by(1);
    cpu.add_cycles(1);
}

/// Opcode 0x62: `LD H,D` - copy the contents of register D into
/// register H. No flags are affected; length 1 byte; 1 machine
/// cycle.
pub fn ld_h_d(cpu: &mut Cpu)
    ensures
        *final(cpu) == spec_ld_r8_post(*old(cpu), Reg8::H, old(cpu).d, 1, 1),
{
    cpu.h = cpu.d;
    cpu.move_program_counter_by(1);
    cpu.add_cycles(1);
}

/// Opcode 0x63: `LD H,E` - copy the contents of register E into
/// register H. No flags are affected; length 1 byte; 1 machine
/// cycle.
pub fn ld_h_e(cpu: &mut Cpu)
    ensures
        *final(cpu) == spec_ld_r8_post(*old(cpu), Reg8::H, old(cpu).e, 1, 1),
{
    cpu.h = cpu.e;
    cpu.move_program_counter_by(1);
    cpu.add_cycles(1);
}

/// Opcode 0x64: `LD H,H` - copy the contents of register H into
/// register H. No flags are affected; length 1 byte; 1 machine
/// cycle.
pub fn ld_h_h(cpu: &mut Cpu)
    ensures
        *final(cpu) == spec_ld_r8_post(*old(cpu), Reg8::H, old(cpu).h, 1, 1),
{
    cpu.h = cpu.h;
    cpu.move_program_counter_by(1);
    cpu.add_cycles(1);
}

/// Opcode 0x65: `LD H,L` - copy the contents of register L into
/// register H. No flags are affected; length 1 byte; 1 machine
/// cycle.
pub fn ld_h_l(cpu: &mut Cpu)
    ensures
        *final(cpu) == spec_ld_r8_post(*old(cpu), Reg8::H, old(cpu).l, 1, 1),
{
    cpu.h = cpu.l;
    cpu.move_program_counter_by(1);
    cpu.add_cycles(1);
}

/// Opcode 0x66: `LD H,(HL)` - load the byte of memory specified by
/// register pair HL into register H. No flags are affected; length
/// 1 byte; 2 machine cycles.
pub fn ld_h_hl(cpu: &mut Cpu, memory: &Memory)
    requires
        memory.wf(),
    ensures
        *final(cpu) == spec_ld_r8_post(*old(cpu), Reg8::H, memory@[old(cpu).spec_hl() as int], 1, 2),
{
    let address = cpu.hl();
    cpu.h = memory.read_byte_at(address);
    cpu.move_program_counter_by(1);
    cpu.add_cycles(2);
}

/// Opcode 0x67: `LD H,A` - copy the contents of register A into
/// register H. No flags are affected; length 1 byte; 1 machine
/// cycle.
pub fn ld_h_a(cpu: &mut Cpu)
    ensures
        *final(cpu) == spec_ld_r8_post(*old(cpu), Reg8::H, old(cpu).a, 1, 1),
{
    cpu.h = cpu.a;
    cpu.move_program_counter_by(1);
    cpu.add_cycles(1);
}

/// Opcode 0x68: `LD L,B` - copy the contents of register B into
/// register L. No flags are affected; length 1 byte; 1 machine
/// cycle.
pub fn ld_l_b(cpu: &mut Cpu)
    ensures
        *final(cpu) == spec_ld_r8_post(*old(cpu), Reg8::L, old(cpu).b, 1, 1),
{
    cpu.l = cpu.b;
    cpu.move_program_counter_by(1);
    cpu.add_cycles(1);
}

/// Opcode 0x69: `LD L,C` - copy the contents of register C into
/// register L. No flags are affected; length 1 byte; 1 machine
/// cycle.
pub fn ld_l_c(cpu: &mut Cpu)
    ensures
        *final(cpu) == spec_ld_r8_post(*old(cpu), Reg8::L, old(cpu).c, 1, 1),
{
    cpu.l = cpu.c;
    cpu.move_program_counter_by(1);
    cpu.add_cycles(1);
}

/// Opcode 0x6A: `LD L,D` - copy the contents of register D into
/// register L. No flags are affected; length 1 byte; 1 machine
/// cycle.
pub fn ld_l_d(cpu: &mut Cpu)
    ensures
        *final(cpu) == spec_ld_r8_post(*old(cpu), Reg8::L, old(cpu).d, 1, 1),
{
    cpu.l = cpu.d;
    cpu.move_program_counter_by(1);
    cpu.add_cycles(1);
}

/// Opcode 0x6B: `LD L,E` - copy the contents of register E into
/// register L. No flags are affected; length 1 byte; 1 machine
/// cycle.
pub fn ld_l_e(cpu: &mut Cpu)
    ensures
        *final(cpu) == spec_ld_r8_post(*old(cpu), Reg8::L, old(cpu).e, 1, 1),
{
    cpu.l = cpu.e;
    cpu.move_program_counter_by(1);
    cpu.add_cycles(1);
}

/// Opcode 0x6C: `LD L,H` - copy the contents of register H into
/// register L. No flags are affected; length 1 byte; 1 machine
/// cycle.
pub fn ld_l_h(cpu: &mut Cpu)
    ensures
        *final(cpu) == spec_ld_r8_post(*old(cpu), Reg8::L, old(cpu).h, 1, 1),
{
    cpu.l = cpu.h;
    cpu.move_program_counter_by(1);
    cpu.add_cycles(1);
}

/// Opcode 0x6D: `LD L,L` - copy the contents of register L into
/// register L. No flags are affected; length 1 byte; 1 machine
/// cycle.
pub fn ld_l_l(cpu: &mut Cpu)
    ensures
        *final(cpu) == spec_ld_r8_post(*old(cpu), Reg8::L, old(cpu).l, 1, 1),
{
    cpu.l = cpu.l;
    cpu.move_program_counter_by(1);
    cpu.add_cycles(1);
}

/// Opcode 0x6E: `LD L,(HL)` - load the byte of memory specified by
/// register pair HL into register L. No flags are affected; length
/// 1 byte; 2 machine cycles.
pub fn ld_l_hl(cpu: &mut Cpu, memory: &Memory)
    requires
        memory.wf(),
    ensures
        *final(cpu) == spec_ld_r8_post(*old(cpu), Reg8::L, memory@[old(cpu).spec_hl() as int], 1, 2),
{
    let address = cpu.hl();
    cpu.l = memory.read_byte_at(address);
    cpu.move_program_counter_by(1);
    cpu.add_cycles(2);
}

/// Opcode 0x6F: `LD L,A` - copy the contents of register A into
/// register L. No flags are affected; length 1 byte; 1 machine
/// cycle.
pub fn ld_l_a(cpu: &mut Cpu)
    ensures
        *final(cpu) == spec_ld_r8_post(*old(cpu), Reg8::L, old(cpu).a, 1, 1),
{
    cpu.l = cpu.a;
    cpu.move_program_counter_by(1);
    cpu.add_cycles(1);
}

/// Opcode 0x70: `LD (HL),B` - store the contents of register B in
/// the memory location specified by register pair HL. No flags are
/// affected; length 1 byte; 2 machine cycles.
pub fn ld_hl_b(cpu: &mut Cpu, memory: &mut Memory)
    requires
        old(memory).wf(),
    ensures
        final(memory).wf(),
        *final(cpu) == spec_advance(*old(cpu), 1, 2),
        final(memory)@ == old(memory)@.update(old(cpu).spec_hl() as int, old(cpu).b),
{
    let address = cpu.hl();
    memory.write_byte_at(address, cpu.b);
    cpu.move_program_counter_by(1);
    cpu.add_cycles(2);
}

/// Opcode 0x71: `LD (HL),C` - store the contents of register C in
/// the memory location specified by register pair HL. No flags are
/// affected; length 1 byte; 2 machine cycles.
pub fn ld_hl_c(cpu: &mut Cpu, memory: &mut Memory)
    requires
        old(memory).wf(),
    ensures
        final(memory).wf(),
        *final(cpu) == spec_advance(*old(cpu), 1, 2),
        final(memory)@ == old(memory)@.update(old(cpu).spec_hl() as int, old(cpu).c),
{
    let address = cpu.hl();
    memory.write_byte_at(address, cpu.c);
    cpu.move_program_counter_by(1);
    cpu.add_cycles(2);
}

/// Opcode 0x72: `LD (HL),D` - store the contents of register D in
/// the memory location specified by register pair HL. No flags are
/// affected; length 1 byte; 2 machine cycles.
pub fn ld_hl_d(cpu: &mut Cpu, memory: &mut Memory)
    requires
        old(memory).wf(),
    ensures
        final(memory).wf(),
        *final(cpu) == spec_advance(*old(cpu), 1, 2),
        final(memory)@ == old(memory)@.update(old(cpu).spec_hl() as int, old(cpu).d),
{
    let address = cpu.hl();
    memory.write_byte_at(address, cpu.d);
    cpu.move_program_counter_by(1);
    cpu.add_cycles(2);
}

/// Opcode 0x73: `LD (HL),E` - store the contents of register E in
/// the memory location specified by register pair HL. No flags are
/// affected; length 1 byte; 2 machine cycles.
pub fn ld_hl_e(cpu: &mut Cpu, memory: &mut Memory)
    requires
        old(memory).wf(),
    ensures
        final(memory).wf(),
        *final(cpu) == spec_advance(*old(cpu), 1, 2),
        final(memory)@ == old(memory)@.update(old(cpu).spec_hl() as int, old(cpu).e),
{
    let address = cpu.hl();
    memory.write_byte_at(address, cpu.e);
    cpu.move_program_counter_by(1);
    cpu.add_cycles(2);
}

/// Opcode 0x74: `LD (HL),H` - store the contents of register H in
/// the memory location specified by register pair HL. No flags are
/// affected; length 1 byte; 2 machine cycles.
pub fn ld_hl_h(cpu: &mut Cpu, memory: &mut Memory)
    requires
        old(memory).wf(),
    ensures
        final(memory).wf(),
        *final(cpu) == spec_advance(*old(cpu), 1, 2),
        final(memory)@ == old(memory)@.update(old(cpu).spec_hl() as int, old(cpu).h),
{
    let address = cpu.hl();
    memory.write_byte_at(address, cpu.h);
    cpu.move_program_counter_by(1);
    cpu.add_cycles(2);
}

/// Opcode 0x75: `LD (HL),L` - store the contents of register L in
/// the memory location specified by register pair HL. No flags are
/// affected; length 1 byte; 2 machine cycles.
pub fn ld_hl_l(cpu: &mut Cpu, memory: &mut Memory)
    requires
        old(memory).wf(),
    ensures
        final(memory).wf(),
        *final(cpu) == spec_advance(*old(cpu), 1, 2),
        final(memory)@ == old(memory)@.update(old(cpu).spec_hl() as int, old(cpu).l),
{
    let address = cpu.hl();
    memory.write_byte_at(address, cpu.l);
    cpu.move_program_counter_by(1);
    cpu.add_cycles(2);
}

/// Opcode 0x77: `LD (HL),A` - store the contents of register A in
/// the memory location specified by register pair HL. No flags are
/// affected; length 1 byte; 2 machine cycles.
pub fn ld_hl_a(cpu: &mut Cpu, memory: &mut Memory)
    requires
        old(memory).wf(),
    ensures
        final(memory).wf(),
        *final(cpu) == spec_advance(*old(cpu), 1, 2),
        final(memory)@ == old(memory)@.update(old(cpu).spec_hl() as int, old(cpu).a),
{
    let address = cpu.hl();
    memory.write_byte_at(address, cpu.a);
    cpu.move_program_counter_by(1);
    cpu.add_cycles(2);
}

/// Opcode 0x78: `LD A,B` - copy the contents of register B into
/// register A. No flags are affected; length 1 byte; 1 machine
/// cycle.
pub fn ld_a_b(cpu: &mut Cpu)
    ensures
        *final(cpu) == spec_ld_r8_post(*old(cpu), Reg8::A, old(cpu).b, 1, 1),
{
    cpu.a = cpu.b;
    cpu.move_program_counter_by(1);
    cpu.add_cycles(1);
}

/// Opcode 0x79: `LD A,C` - copy the contents of register C into
/// register A. No flags are affected; length 1 byte; 1 machine
/// cycle.
pub fn ld_a_c(cpu: &mut Cpu)
    ensures
        *final(cpu) == spec_ld_r8_post(*old(cpu), Reg8::A, old(cpu).c, 1, 1),
{
    cpu.a = cpu.c;
    cpu.move_program_counter_by(1);
    cpu.add_cycles(1);
}

/// Opcode 0x7A: `LD A,D` - copy the contents of register D into
/// register A. No flags are affected; length 1 byte; 1 machine
/// cycle.
pub fn ld_a_d(cpu: &mut Cpu)
    ensures
        *final(cpu) == spec_ld_r8_post(*old(cpu), Reg8::A, old(cpu).d, 1, 1),
{
    cpu.a = cpu.d;
    cpu.move_program_counter_by(1);
    cpu.add_cycles(1);
}

/// Opcode 0x7B: `LD A,E` - copy the contents of register E into
/// register A. No flags are affected; length 1 byte; 1 machine
/// cycle.
pub fn ld_a_e(cpu: &mut Cpu)
    ensures
        *final(cpu) == spec_ld_r8_post(*old(cpu), Reg8::A, old(cpu).e, 1, 1),
{
    cpu.a = cpu.e;
    cpu.move_program_counter_by(1);
    cpu.add_cycles(1);
}

/// Opcode 0x7C: `LD A,H` - copy the contents of register H into
/// register A. No flags are affected; length 1 byte; 1 machine
/// cycle.
pub fn ld_a_h(cpu: &mut Cpu)
    ensures
        *final(cpu) == spec_ld_r8_post(*old(cpu), Reg8::A, old(cpu).h, 1, 1),
{
    cpu.a = cpu.h;
    cpu.move_program_counter_by(1);
    cpu.add_cycles(1);
}

/// Opcode 0x7D: `LD A,L` - copy the contents of register L into
/// register A. No flags are affected; length 1 byte; 1 machine
/// cycle.
pub fn ld_a_l(cpu: &mut Cpu)
    ensures
        *final(cpu) == spec_ld_r8_post(*old(cpu), Reg8::A, old(cpu).l, 1, 1),
{
    cpu.a = cpu.l;
    cpu.move_program_counter_by(1);
    cpu.add_cycles(1);
}

/// Opcode 0x7E: `LD A,(HL)` - load the byte of memory specified by
/// register pair HL into register A. No flags are affected; length
/// 1 byte; 2 machine cycles.
pub fn ld_a_hl(cpu: &mut Cpu, memory: &Memory)
    requires
        memory.wf(),
    ensures
        *final(cpu) == spec_ld_r8_post(*old(cpu), Reg8::A, memory@[old(cpu).spec_hl() as int], 1, 2),
{
    let address = cpu.hl();
    cpu.a = memory.read_byte_at(address);
    cpu.move_program_counter_by(1);
    cpu.add_cycles(2);
}

/// Opcode 0x7F: `LD A,A` - copy the contents of register A into
/// register A. No flags are affected; length 1 byte; 1 machine
/// cycle.
pub fn ld_a_a(cpu: &mut Cpu)
    ensures
        *final(cpu) == spec_ld_r8_post(*old(cpu), Reg8::A, old(cpu).a, 1, 1),
{
    cpu.a = cpu.a;
    cpu.move_program_counter_by(1);
    cpu.add_cycles(1);
}

/// Opcode 0x80: `ADD A,B` - add the contents of register B to register A and store the
/// result in A. Zero, Half-Carry and Carry are recomputed from the
/// addition, Negative is cleared;
/// length 1 byte; 1 machine cycle.
pub fn add_a_b(cpu: &mut Cpu)
    ensures
        *final(cpu) == spec_add_a_post(*old(cpu), old(cpu).b, 1, 1),
{
    let value = cpu.b;
    cpu.half_carry = cpu.a % 16 + value % 16 > 15;
    cpu.carry = cpu.a as u16 + value as u16 > 255;
    cpu.a = cpu.a.wrapping_add(value);
    cpu.zero = cpu.a == 0;
    cpu.negative = false;
    cpu.move_program_counter_by(1);
    cpu.add_cycles(1);
}

/// Opcode 0x81: `ADD A,C` - add the contents of register C to register A and store the
/// result in A. Zero, Half-Carry and Carry are recomputed from the
/// addition, Negative is cleared;
/// length 1 byte; 1 machine cycle.
pub fn add_a_c(cpu: &mut Cpu)
    ensures
        *final(cpu) == spec_add_a_post(*old(cpu), old(cpu).c, 1, 1),
{
    let value = cpu.c;
    cpu.half_carry = cpu.a % 16 + value % 16 > 15;
    cpu.carry = cpu.a as u16 + value as u16 > 255;
    cpu.a = cpu.a.wrapping_add(value);
    cpu.zero = cpu.a == 0;
    cpu.negative = false;
    cpu.move_program_counter_by(1);
    cpu.add_cycles(1);
}

/// Opcode 0x82: `ADD A,D` - add the contents of register D to register A and store the
/// result in A. Zero, Half-Carry and Carry are recomputed from the
/// addition, Negative is cleared;
/// length 1 byte; 1 machine cycle.
pub fn add_a_d(cpu: &mut Cpu)
    ensures
        *final(cpu) == spec_add_a_post(*old(cpu), old(cpu).d, 1, 1),
{
    let value = cpu.d;
    cpu.half_carry = cpu.a % 16 + value % 16 > 15;
    cpu.carry = cpu.a as u16 + value as u16 > 255;
    cpu.a = cpu.a.wrapping_add(value);
    cpu.zero = cpu.a == 0;
    cpu.negative = false;
    cpu.move_program_counter_by(1);
    cpu.add_cycles(1);
}

/// Opcode 0x83: `ADD A,E` - add the contents of register E to register A and store the
/// result in A. Zero, Half-Carry and Carry are recomputed from the
/// addition, Negative is cleared;
/// length 1 byte; 1 machine cycle.
pub fn add_a_e(cpu: &mut Cpu)
    ensures
        *final(cpu) == spec_add_a_post(*old(cpu), old(cpu).e, 1, 1),
{
    let value = cpu.e;
    cpu.half_carry = cpu.a % 16 + value % 16 > 15;
    cpu.carry = cpu.a as u16 + value as u16 > 255;
    cpu.a = cpu.a.wrapping_add(value);
    cpu.zero = cpu.a == 0;
    cpu.negative = false;
    cpu.move_program_counter_by(1);
    cpu.add_cycles(1);
}

/// Opcode 0x84: `ADD A,H` - add the contents of register H to register A and store the
/// result in A. Zero, Half-Carry and Carry are recomputed from the
/// addition, Negative is cleared;
/// length 1 byte; 1 machine cycle.
pub fn add_a_h(cpu: &mut Cpu)
    ensures
        *final(cpu) == spec_add_a_post(*old(cpu), old(cpu).h, 1, 1),
{
    let value = cpu.h;
    cpu.half_carry = cpu.a % 16 + value % 16 > 15;
    cpu.carry = cpu.a as u16 + value as u16 > 255;
    cpu.a = cpu.a.wrapping_add(value);
    cpu.zero = cpu.a == 0;
    cpu.negative = false;
    cpu.move_program_counter_by(1);
    cpu.add_cycles(1);
}

/// Opcode 0x85: `ADD A,L` - add the contents of register L to register A and store the
/// result in A. Zero, Half-Carry and Carry are recomputed from the
/// addition, Negative is cleared;
/// length 1 byte; 1 machine cycle.
pub fn add_a_l(cpu: &mut Cpu)
    ensures
        *final(cpu) == spec_add_a_post(*old(cpu), old(cpu).l, 1, 1),
{
    let value = cpu.l;
    cpu.half_carry = cpu.a % 16 + value % 16 > 15;
    cpu.carry = cpu.a as u16 + value as u16 > 255;
    cpu.a = cpu.a.wrapping_add(value);
    cpu.zero = cpu.a == 0;
    cpu.negative = false;
    cpu.move_program_counter_by(1);
    cpu.add_cycles(1);
}

/// Opcode 0x86: `ADD A,(HL)` - add the contents of the byte of memory at HL to register A and store the
/// result in A. Zero, Half-Carry and Carry are recomputed from the
/// addition, Negative is cleared;
/// length 1 byte; 2 machine cycles.
pub fn add_a_hl(cpu: &mut Cpu, memory: &Memory)
    requires
        memory.wf(),
    ensures
        *final(cpu) == spec_add_a_post(*old(cpu), memory@[old(cpu).spec_hl() as int], 1, 2),
{
    let address = cpu.hl();
    let value = memory.read_byte_at(address);
    cpu.half_carry = cpu.a % 16 + value % 16 > 15;
    cpu.carry = cpu.a as u16 + value as u16 > 255;
    cpu.a = cpu.a.wrapping_add(value);
    cpu.zero = cpu.a == 0;
    cpu.negative = false;
    cpu.move_program_counter_by(1);
    cpu.add_cycles(2);
}

/// Opcode 0x87: `ADD A,A` - add the contents of register A to register A and store the
/// result in A. Zero, Half-Carry and Carry are recomputed from the
/// addition, Negative is cleared;
/// length 1 byte; 1 machine cycle.
pub fn add_a_a(cpu: &mut Cpu)
    ensures
        *final(cpu) == spec_add_a_post(*old(cpu), old(cpu).a, 1, 1),
{
    let value = cpu.a;
    cpu.half_carry = cpu.a % 16 + value % 16 > 15;
    cpu.carry = cpu.a as u16 + value as u16 > 255;
    cpu.a = cpu.a.wrapping_add(value);
    cpu.zero = cpu.a == 0;
    cpu.negative = false;
    cpu.move_program_counter_by(1);
    cpu.add_cycles(1);
}

/// Opcode 0x90: `SUB B` - subtract the contents of register B from register A and
/// store the result in A. Zero is recomputed, Half-Carry and Carry are
/// the nibble and byte borrows of the subtraction, Negative is set;
/// length 1 byte; 1 machine cycle.
pub fn sub_b(cpu: &mut Cpu)
    ensures
        *final(cpu) == spec_sub_a_post(*old(cpu), old(cpu).b, 1, 1),
{
    let value = cpu.b;
    cpu.half_carry = cpu.a % 16 < value % 16;
    cpu.carry = cpu.a < value;
    cpu.a = cpu.a.wrapping_sub(value);
    cpu.zero = cpu.a == 0;
    cpu.negative = true;
    cpu.move_program_counter_by(1);
    cpu.add_cycles(1);
}

/// Opcode 0x91: `SUB C` - subtract the contents of register C from register A and
/// store the result in A. Zero is recomputed, Half-Carry and Carry are
/// the nibble and byte borrows of the subtraction, Negative is set;
/// length 1 byte; 1 machine cycle.
pub fn sub_c(cpu: &mut Cpu)
    ensures
        *final(cpu) == spec_sub_a_post(*old(cpu), old(cpu).c, 1, 1),
{
    let value = cpu.c;
    cpu.half_carry = cpu.a % 16 < value % 16;
    cpu.carry = cpu.a < value;
    cpu.a = cpu.a.wrapping_sub(value);
    cpu.zero = cpu.a == 0;
    cpu.negative = true;
    cpu.move_program_counter_by(1);
    cpu.add_cycles(1);
}

/// Opcode 0x92: `SUB D` - subtract the contents of register D from register A and
/// store the result in A. Zero is recomputed, Half-Carry and Carry are
/// the nibble and byte borrows of the subtraction, Negative is set;
/// length 1 byte; 1 machine cycle.
pub fn sub_d(cpu: &mut Cpu)
    ensures
        *final(cpu) == spec_sub_a_post(*old(cpu), old(cpu).d, 1, 1),
{
    let value = cpu.d;
    cpu.half_carry = cpu.a % 16 < value % 16;
    cpu.carry = cpu.a < value;
    cpu.a = cpu.a.wrapping_sub(value);
    cpu.zero = cpu.a == 0;
    cpu.negative = true;
    cpu.move_program_counter_by(1);
    cpu.add_cycles(1);
}

/// Opcode 0x93: `SUB E` - subtract the contents of register E from register A and
/// store the result in A. Zero is recomputed, Half-Carry and Carry are
/// the nibble and byte borrows of the subtraction, Negative is set;
/// length 1 byte; 1 machine cycle.
pub fn sub_e(cpu: &mut Cpu)
    ensures
        *final(cpu) == spec_sub_a_post(*old(cpu), old(cpu).e, 1, 1),
{
    let value = cpu.e;
    cpu.half_carry = cpu.a % 16 < value % 16;
    cpu.carry = cpu.a < value;
    cpu.a = cpu.a.wrapping_sub(value);
    cpu.zero = cpu.a == 0;
    cpu.negative = true;
    cpu.move_program_counter_by(1);
    cpu.add_cycles(1);
}

/// Opcode 0x94: `SUB H` - subtract the contents of register H from register A and
/// store the result in A. Zero is recomputed, Half-Carry and Carry are
/// the nibble and byte borrows of the subtraction, Negative is set;
/// length 1 byte; 1 machine cycle.
pub fn sub_h(cpu: &mut Cpu)
    ensures
        *final(cpu) == spec_sub_a_post(*old(cpu), old(cpu).h, 1, 1),
{
    let value = cpu.h;
    cpu.half_carry = cpu.a % 16 < value % 16;
    cpu.carry = cpu.a < value;
    cpu.a = cpu.a.wrapping_sub(value);
    cpu.zero = cpu.a == 0;
    cpu.negative = true;
    cpu.move_program_counter_by(1);
    cpu.add_cycles(1);
}

/// Opcode 0x95: `SUB L` - subtract the contents of register L from register A and
/// store the result in A. Zero is recomputed, Half-Carry and Carry are
/// the nibble and byte borrows of the subtraction, Negative is set;
/// length 1 byte; 1 machine cycle.
pub fn sub_l(cpu: &mut Cpu)
    ensures
        *final(cpu) == spec_sub_a_post(*old(cpu), old(cpu).l, 1, 1),
{
    let value = cpu.l;
    cpu.half_carry = cpu.a % 16 < value % 16;
    cpu.carry = cpu.a < value;
    cpu.a = cpu.a.wrapping_sub(value);
    cpu.zero = cpu.a == 0;
    cpu.negative = true;
    cpu.move_program_counter_by(1);
    cpu.add_cycles(1);
}

/// Opcode 0x96: `SUB (HL)` - subtract the contents of the byte of memory at HL from register A and
/// store the result in A. Zero is recomputed, Half-Carry and Carry are
/// the nibble and byte borrows of the subtraction, Negative is set;
/// length 1 byte; 2 machine cycles.
pub fn sub_hl(cpu: &mut Cpu, memory: &Memory)
    requires
        memory.wf(),
    ensures
        *final(cpu) == spec_sub_a_post(*old(cpu), memory@[old(cpu).spec_hl() as int], 1, 2),
{
    let address = cpu.hl();
    let value = memory.read_byte_at(address);
    cpu.half_carry = cpu.a % 16 < value % 16;
    cpu.carry = cpu.a < value;
    cpu.a = cpu.a.wrapping_sub(value);
    cpu.zero = cpu.a == 0;
    cpu.negative = true;
    cpu.move_program_counter_by(1);
    cpu.add_cycles(2);
}

/// Opcode 0x97: `SUB A` - subtract the contents of register A from register A and
/// store the result in A. Zero is recomputed, Half-Carry and Carry are
/// the nibble and byte borrows of the subtraction, Negative is set;
/// length 1 byte; 1 machine cycle.
pub fn sub_a(cpu: &mut Cpu)
    ensures
        *final(cpu) == spec_sub_a_post(*old(cpu), old(cpu).a, 1, 1),
{
    let value = cpu.a;
    cpu.half_carry = cpu.a % 16 < value % 16;
    cpu.carry = cpu.a < value;
    cpu.a = cpu.a.wrapping_sub(value);
    cpu.zero = cpu.a == 0;
    cpu.negative = true;
    cpu.move_program_counter_by(1);
    cpu.add_cycles(1);
}

/// Opcode 0xA0: `AND B` - bitwise-AND the contents of register B into register A.
/// Zero is recomputed, Half-Carry is set, Negative and Carry are
/// cleared;
/// length 1 byte; 1 machine cycle.
pub fn and_b(cpu: &mut Cpu)
    ensures
        *final(cpu) == spec_and_a_post(*old(cpu), old(cpu).b, 1, 1),
{
    let value = cpu.b;
    cpu.a = cpu.a & value;
    cpu.zero = cpu.a == 0;
    cpu.negative = false;
    cpu.half_carry = true;
    cpu.carry = false;
    cpu.move_program_counter_by(1);
    cpu.add_cycles(1);
}

/// Opcode 0xA1: `AND C` - bitwise-AND the contents of register C into register A.
/// Zero is recomputed, Half-Carry is set, Negative and Carry are
/// cleared;
/// length 1 byte; 1 machine cycle.
pub fn and_c(cpu: &mut Cpu)
    ensures
        *final(cpu) == spec_and_a_post(*old(cpu), old(cpu).c, 1, 1),
{
    let value = cpu.c;
    cpu.a = cpu.a & value;
    cpu.zero = cpu.a == 0;
    cpu.negative = false;
    cpu.half_carry = true;
    cpu.carry = false;
    cpu.move_program_counter_by(1);
    cpu.add_cycles(1);
}

/// Opcode 0xA2: `AND D` - bitwise-AND the contents of register D into register A.
/// Zero is recomputed, Half-Carry is set, Negative and Carry are
/// cleared;
/// length 1 byte; 1 machine cycle.
pub fn and_d(cpu: &mut Cpu)
    ensures
        *final(cpu) == spec_and_a_post(*old(cpu), old(cpu).d, 1, 1),
{
    let value = cpu.d;
    cpu.a = cpu.a & value;
    cpu.zero = cpu.a == 0;
    cpu.negative = false;
    cpu.half_carry = true;
    cpu.carry = false;
    cpu.move_program_counter_by(1);
    cpu.add_cycles(1);
}

/// Opcode 0xA3: `AND E` - bitwise-AND the contents of register E into register A.
/// Zero is recomputed, Half-Carry is set, Negative and Carry are
/// cleared;
/// length 1 byte; 1 machine cycle.
pub fn and_e(cpu: &mut Cpu)
    ensures
        *final(cpu) == spec_and_a_post(*old(cpu), old(cpu).e, 1, 1),
{
    let value = cpu.e;
    cpu.a = cpu.a & value;
    cpu.zero = cpu.a == 0;
    cpu.negative = false;
    cpu.half_carry = true;
    cpu.carry = false;
    cpu.move_program_counter_by(1);
    cpu.add_cycles(1);
}

/// Opcode 0xA4: `AND H` - bitwise-AND the contents of register H into register A.
/// Zero is recomputed, Half-Carry is set, Negative and Carry are
/// cleared;
/// length 1 byte; 1 machine cycle.
pub fn and_h(cpu: &mut Cpu)
    ensures
        *final(cpu) == spec_and_a_post(*old(cpu), old(cpu).h, 1, 1),
{
    let value = cpu.h;
    cpu.a = cpu.a & value;
    cpu.zero = cpu.a == 0;
    cpu.negative = false;
    cpu.half_carry = true;
    cpu.carry = false;
    cpu.move_program_counter_by(1);
    cpu.add_cycles(1);
}

/// Opcode 0xA5: `AND L` - bitwise-AND the contents of register L into register A.
/// Zero is recomputed, Half-Carry is set, Negative and Carry are
/// cleared;
/// length 1 byte; 1 machine cycle.
pub fn and_l(cpu: &mut Cpu)
    ensures
        *final(cpu) == spec_and_a_post(*old(cpu), old(cpu).l, 1, 1),
{
    let value = cpu.l;
    cpu.a = cpu.a & value;
    cpu.zero = cpu.a == 0;
    cpu.negative = false;
    cpu.half_carry = true;
    cpu.carry = false;
    cpu.move_program_counter_by(1);
    cpu.add_cycles(1);
}

/// Opcode 0xA6: `AND (HL)` - bitwise-AND the contents of the byte of memory at HL into register A.
/// Zero is recomputed, Half-Carry is set, Negative and Carry are
/// cleared;
/// length 1 byte; 2 machine cycles.
pub fn and_hl(cpu: &mut Cpu, memory: &Memory)
    requires
        memory.wf(),
    ensures
        *final(cpu) == spec_and_a_post(*old(cpu), memory@[old(cpu).spec_hl() as int], 1, 2),
{
    let address = cpu.hl();
    let value = memory.read_byte_at(address);
    cpu.a = cpu.a & value;
    cpu.zero = cpu.a == 0;
    cpu.negative = false;
    cpu.half_carry = true;
    cpu.carry = false;
    cpu.move_program_counter_by(1);
    cpu.add_cycles(2);
}

/// Opcode 0xA7: `AND A` - bitwise-AND the contents of register A into register A.
/// Zero is recomputed, Half-Carry is set, Negative and Carry are
/// cleared;
/// length 1 byte; 1 machine cycle.
pub fn and_a(cpu: &mut Cpu)
    ensures
        *final(cpu) == spec_and_a_post(*old(cpu), old(cpu).a, 1, 1),
{
    let value = cpu.a;
    cpu.a = cpu.a & value;
    cpu.zero = cpu.a == 0;
    cpu.negative = false;
    cpu.half_carry = true;
    cpu.carry = false;
    cpu.move_program_counter_by(1);
    cpu.add_cycles(1);
}

/// Opcode 0xA8: `XOR B` - bitwise-XOR the contents of register B into register A.
/// Zero is recomputed, Negative, Half-Carry and Carry are cleared;
/// length 1 byte; 1 machine cycle.
pub fn xor_b(cpu: &mut Cpu)
    ensures
        *final(cpu) == spec_xor_a_post(*old(cpu), old(cpu).b, 1, 1),
{
    let value = cpu.b;
    cpu.a = cpu.a ^ value;
    cpu.zero = cpu.a == 0;
    cpu.negative = false;
    cpu.half_carry = false;
    cpu.carry = false;
    cpu.move_program_counter_by(1);
    cpu.add_cycles(1);
}

/// Opcode 0xA9: `XOR C` - bitwise-XOR the contents of register C into register A.
/// Zero is recomputed, Negative, Half-Carry and Carry are cleared;
/// length 1 byte; 1 machine cycle.
pub fn xor_c(cpu: &mut Cpu)
    ensures
        *final(cpu) == spec_xor_a_post(*old(cpu), old(cpu).c, 1, 1),
{
    let value = cpu.c;
    cpu.a = cpu.a ^ value;
    cpu.zero = cpu.a == 0;
    cpu.negative = false;
    cpu.half_carry = false;
    cpu.carry = false;
    cpu.move_program_counter_by(1);
    cpu.add_cycles(1);
}

/// Opcode 0xAA: `XOR D` - bitwise-XOR the contents of register D into register A.
/// Zero is recomputed, Negative, Half-Carry and Carry are cleared;
/// length 1 byte; 1 machine cycle.
pub fn xor_d(cpu: &mut Cpu)
    ensures
        *final(cpu) == spec_xor_a_post(*old(cpu), old(cpu).d, 1, 1),
{
    let value = cpu.d;
    cpu.a = cpu.a ^ value;
    cpu.zero = cpu.a == 0;
    cpu.negative = false;
    cpu.half_carry = false;
    cpu.carry = false;
    cpu.move_program_counter_by(1);
    cpu.add_cycles(1);
}

/// Opcode 0xAB: `XOR E` - bitwise-XOR the contents of register E into register A.
/// Zero is recomputed, Negative, Half-Carry and Carry are cleared;
/// length 1 byte; 1 machine cycle.
pub fn xor_e(cpu: &mut Cpu)
    ensures
        *final(cpu) == spec_xor_a_post(*old(cpu), old(cpu).e, 1, 1),
{
    let value = cpu.e;
    cpu.a = cpu.a ^ value;
    cpu.zero = cpu.a == 0;
    cpu.negative = false;
    cpu.half_carry = false;
    cpu.carry = false;
    cpu.move_program_counter_by(1);
    cpu.add_cycles(1);
}

/// Opcode 0xAC: `XOR H` - bitwise-XOR the contents of register H into register A.
/// Zero is recomputed, Negative, Half-Carry and Carry are cleared;
/// length 1 byte; 1 machine cycle.
pub fn xor_h(cpu: &mut Cpu)
    ensures
        *final(cpu) == spec_xor_a_post(*old(cpu), old(cpu).h, 1, 1),
{
    let value = cpu.h;
    cpu.a = cpu.a ^ value;
    cpu.zero = cpu.a == 0;
    cpu.negative = false;
    cpu.half_carry = false;
    cpu.carry = false;
    cpu.move_program_counter_by(1);
    cpu.add_cycles(1);
}

/// Opcode 0xAD: `XOR L` - bitwise-XOR the contents of register L into register A.
/// Zero is recomputed, Negative, Half-Carry and Carry are cleared;
/// length 1 byte; 1 machine cycle.
pub fn xor_l(cpu: &mut Cpu)
    ensures
        *final(cpu) == spec_xor_a_post(*old(cpu), old(cpu).l, 1, 1),
{
    let value = cpu.l;
    cpu.a = cpu.a ^ value;
    cpu.zero = cpu.a == 0;
    cpu.negative = false;
    cpu.half_carry = false;
    cpu.carry = false;
    cpu.move_program_counter_by(1);
    cpu.add_cycles(1);
}

/// Opcode 0xAE: `XOR (HL)` - bitwise-XOR the contents of the byte of memory at HL into register A.
/// Zero is recomputed, Negative, Half-Carry and Carry are cleared;
/// length 1 byte; 2 machine cycles.
pub fn xor_hl(cpu: &mut Cpu, memory: &Memory)
    requires
        memory.wf(),
    ensures
        *final(cpu) == spec_xor_a_post(*old(cpu), memory@[old(cpu).spec_hl() as int], 1, 2),
{
    let address = cpu.hl();
    let value = memory.read_byte_at(address);
    cpu.a = cpu.a ^ value;
    cpu.zero = cpu.a == 0;
    cpu.negative = false;
    cpu.half_carry = false;
    cpu.carry = false;
    cpu.move_program_counter_by(1);
    cpu.add_cycles(2);
}

/// Opcode 0xAF: `XOR A` - bitwise-XOR the contents of register A into register A.
/// Zero is recomputed, Negative, Half-Carry and Carry are cleared;
/// length 1 byte; 1 machine cycle.
pub fn xor_a(cpu: &mut Cpu)
    ensures
        *final(cpu) == spec_xor_a_post(*old(cpu), old(cpu).a, 1, 1),
{
    let value = cpu.a;
    cpu.a = cpu.a ^ value;
    cpu.zero = cpu.a == 0;
    cpu.negative = false;
    cpu.half_carry = false;
    cpu.carry = false;
    cpu.move_program_counter_by(1);
    cpu.add_cycles(1);
}

/// Opcode 0xB0: `OR B` - bitwise-OR the contents of register B into register A.
/// Zero is recomputed, Negative, Half-Carry and Carry are cleared;
/// length 1 byte; 1 machine cycle.
pub fn or_b(cpu: &mut Cpu)
    ensures
        *final(cpu) == spec_or_a_post(*old(cpu), old(cpu).b, 1, 1),
{
    let value = cpu.b;
    cpu.a = cpu.a | value;
    cpu.zero = cpu.a == 0;
    cpu.negative = false;
    cpu.half_carry = false;
    cpu.carry = false;
    cpu.move_program_counter_by(1);
    cpu.add_cycles(1);
}

/// Opcode 0xB1: `OR C` - bitwise-OR the contents of register C into register A.
/// Zero is recomputed, Negative, Half-Carry and Carry are cleared;
/// length 1 byte; 1 machine cycle.
pub fn or_c(cpu: &mut Cpu)
    ensures
        *final(cpu) == spec_or_a_post(*old(cpu), old(cpu).c, 1, 1),
{
    let value = cpu.c;
    cpu.a = cpu.a | value;
    cpu.zero = cpu.a == 0;
    cpu.negative = false;
    cpu.half_carry = false;
    cpu.carry = false;
    cpu.move_program_counter_by(1);
    cpu.add_cycles(1);
}

/// Opcode 0xB2: `OR D` - bitwise-OR the contents of register D into register A.
/// Zero is recomputed, Negative, Half-Carry and Carry are cleared;
/// length 1 byte; 1 machine cycle.
pub fn or_d(cpu: &mut Cpu)
    ensures
        *final(cpu) == spec_or_a_post(*old(cpu), old(cpu).d, 1, 1),
{
    let value = cpu.d;
    cpu.a = cpu.a | value;
    cpu.zero = cpu.a == 0;
    cpu.negative = false;
    cpu.half_carry = false;
    cpu.carry = false;
    cpu.move_program_counter_by(1);
    cpu.add_cycles(1);
}

/// Opcode 0xB3: `OR E` - bitwise-OR the contents of register E into register A.
/// Zero is recomputed, Negative, Half-Carry and Carry are cleared;
/// length 1 byte; 1 machine cycle.
pub fn or_e(cpu: &mut Cpu)
    ensures
        *final(cpu) == spec_or_a_post(*old(cpu), old(cpu).e, 1, 1),
{
    let value = cpu.e;
    cpu.a = cpu.a | value;
    cpu.zero = cpu.a == 0;
    cpu.negative = false;
    cpu.half_carry = false;
    cpu.carry = false;
    cpu.move_program_counter_by(1);
    cpu.add_cycles(1);
}

/// Opcode 0xB4: `OR H` - bitwise-OR the contents of register H into register A.
/// Zero is recomputed, Negative, Half-Carry and Carry are cleared;
/// length 1 byte; 1 machine cycle.
pub fn or_h(cpu: &mut Cpu)
    ensures
        *final(cpu) == spec_or_a_post(*old(cpu), old(cpu).h, 1, 1),
{
    let value = cpu.h;
    cpu.a = cpu.a | value;
    cpu.zero = cpu.a == 0;
    cpu.negative = false;
    cpu.half_carry = false;
    cpu.carry = false;
    cpu.move_program_counter_by(1);
    cpu.add_cycles(1);
}

/// Opcode 0xB5: `OR L` - bitwise-OR the contents of register L into register A.
/// Zero is recomputed, Negative, Half-Carry and Carry are cleared;
/// length 1 byte; 1 machine cycle.
pub fn or_l(cpu: &mut Cpu)
    ensures
        *final(cpu) == spec_or_a_post(*old(cpu), old(cpu).l, 1, 1),
{
    let value = cpu.l;
    cpu.a = cpu.a | value;
    cpu.zero = cpu.a == 0;
    cpu.negative = false;
    cpu.half_carry = false;
    cpu.carry = false;
    cpu.move_program_counter_by(1);
    cpu.add_cycles(1);
}

/// Opcode 0xB6: `OR (HL)` - bitwise-OR the contents of the byte of memory at HL into register A.
/// Zero is recomputed, Negative, Half-Carry and Carry are cleared;
/// length 1 byte; 2 machine cycles.
pub fn or_hl(cpu: &mut Cpu, memory: &Memory)
    requires
        memory.wf(),
    ensures
        *final(cpu) == spec_or_a_post(*old(cpu), memory@[old(cpu).spec_hl() as int], 1, 2),
{
    let address = cpu.hl();
    let value = memory.read_byte_at(address);
    cpu.a = cpu.a | value;
    cpu.zero = cpu.a == 0;
    cpu.negative = false;
    cpu.half_carry = false;
    cpu.carry = false;
    cpu.move_program_counter_by(1);
    cpu.add_cycles(2);
}

/// Opcode 0xB7: `OR A` - bitwise-OR the contents of register A into register A.
/// Zero is recomputed, Negative, Half-Carry and Carry are cleared;
/// length 1 byte; 1 machine cycle.
pub fn or_a(cpu: &mut Cpu)
    ensures
        *final(cpu) == spec_or_a_post(*old(cpu), old(cpu).a, 1, 1),
{
    let value = cpu.a;
    cpu.a = cpu.a | value;
    cpu.zero = cpu.a == 0;
    cpu.negative = false;
    cpu.half_carry = false;
    cpu.carry = false;
    cpu.move_program_counter_by(1);
    cpu.add_cycles(1);
}

/// Opcode 0xB8: `CP B` - compare the contents of register B with register A by
/// computing A minus the operand and discarding the result; register A
/// is unchanged. Zero is set exactly when the two are equal, Half-Carry
/// and Carry are the borrows of the subtraction, Negative is set;
/// length 1 byte; 1 machine cycle.
pub fn cp_b(cpu: &mut Cpu)
    ensures
        *final(cpu) == spec_cp_a_post(*old(cpu), old(cpu).b, 1, 1),
{
    let value = cpu.b;
    cpu.zero = cpu.a.wrapping_sub(value) == 0;
    cpu.negative = true;
    cpu.half_carry = cpu.a % 16 < value % 16;
    cpu.carry = cpu.a < value;
    cpu.move_program_counter_by(1);
    cpu.add_cycles(1);
}

/// Opcode 0xB9: `CP C` - compare the contents of register C with register A by
/// computing A minus the operand and discarding the result; register A
/// is unchanged. Zero is set exactly when the two are equal, Half-Carry
/// and Carry are the borrows of the subtraction, Negative is set;
/// length 1 byte; 1 machine cycle.
pub fn cp_c(cpu: &mut Cpu)
    ensures
        *final(cpu) == spec_cp_a_post(*old(cpu), old(cpu).c, 1, 1),
{
    let value = cpu.c;
    cpu.zero = cpu.a.wrapping_sub(value) == 0;
    cpu.negative = true;
    cpu.half_carry = cpu.a % 16 < value % 16;
    cpu.carry = cpu.a < value;
    cpu.move_program_counter_by(1);
    cpu.add_cycles(1);
}

/// Opcode 0xBA: `CP D` - compare the contents of register D with register A by
/// computing A minus the operand and discarding the result; register A
/// is unchanged. Zero is set exactly when the two are equal, Half-Carry
/// and Carry are the borrows of the subtraction, Negative is set;
/// length 1 byte; 1 machine cycle.
pub fn cp_d(cpu: &mut Cpu)
    ensures
        *final(cpu) == spec_cp_a_post(*old(cpu), old(cpu).d, 1, 1),
{
    let value = cpu.d;
    cpu.zero = cpu.a.wrapping_sub(value) == 0;
    cpu.negative = true;
    cpu.half_carry = cpu.a % 16 < value % 16;
    cpu.carry = cpu.a < value;
    cpu.move_program_counter_by(1);
    cpu.add_cycles(1);
}

/// Opcode 0xBB: `CP E` - compare the contents of register E with register A by
/// computing A minus the operand and discarding the result; register A
/// is unchanged. Zero is set exactly when the two are equal, Half-Carry
/// and Carry are the borrows of the subtraction, Negative is set;
/// length 1 byte; 1 machine cycle.
pub fn cp_e(cpu: &mut Cpu)
    ensures
        *final(cpu) == spec_cp_a_post(*old(cpu), old(cpu).e, 1, 1),
{
    let value = cpu.e;
    cpu.zero = cpu.a.wrapping_sub(value) == 0;
    cpu.negative = true;
    cpu.half_carry = cpu.a % 16 < value % 16;
    cpu.carry = cpu.a < value;
    cpu.move_program_counter_by(1);
    cpu.add_cycles(1);
}

/// Opcode 0xBC: `CP H` - compare the contents of register H with register A by
/// computing A minus the operand and discarding the result; register A
/// is unchanged. Zero is set exactly when the two are equal, Half-Carry
/// and Carry are the borrows of the subtraction, Negative is set;
/// length 1 byte; 1 machine cycle.
pub fn cp_h(cpu: &mut Cpu)
    ensures
        *final(cpu) == spec_cp_a_post(*old(cpu), old(cpu).h, 1, 1),
{
    let value = cpu.h;
    cpu.zero = cpu.a.wrapping_sub(value) == 0;
    cpu.negative = true;
    cpu.half_carry = cpu.a % 16 < value % 16;
    cpu.carry = cpu.a < value;
    cpu.move_program_counter_by(1);
    cpu.add_cycles(1);
}

/// Opcode 0xBD: `CP L` - compare the contents of register L with register A by
/// computing A minus the operand and discarding the result; register A
/// is unchanged. Zero is set exactly when the two are equal, Half-Carry
/// and Carry are the borrows of the subtraction, Negative is set;
/// length 1 byte; 1 machine cycle.
pub fn cp_l(cpu: &mut Cpu)
    ensures
        *final(cpu) == spec_cp_a_post(*old(cpu), old(cpu).l, 1, 1),
{
    let value = cpu.l;
    cpu.zero = cpu.a.wrapping_sub(value) == 0;
    cpu.negative = true;
    cpu.half_carry = cpu.a % 16 < value % 16;
    cpu.carry = cpu.a < value;
    cpu.move_program_counter_by(1);
    cpu.add_cycles(1);
}

/// Opcode 0xBE: `CP (HL)` - compare the contents of the byte of memory at HL with register A by
/// computing A minus the operand and discarding the result; register A
/// is unchanged. Zero is set exactly when the two are equal, Half-Carry
/// and Carry are the borrows of the subtraction, Negative is set;
/// length 1 byte; 2 machine cycles.
pub fn cp_hl(cpu: &mut Cpu, memory: &Memory)
    requires
        memory.wf(),
    ensures
        *final(cpu) == spec_cp_a_post(*old(cpu), memory@[old(cpu).spec_hl() as int], 1, 2),
{
    let address = cpu.hl();
    let value = memory.read_byte_at(address);
    cpu.zero = cpu.a.wrapping_sub(value) == 0;
    cpu.negative = true;
    cpu.half_carry = cpu.a % 16 < value % 16;
    cpu.carry = cpu.a < value;
    cpu.move_program_counter_by(1);
    cpu.add_cycles(2);
}

/// Opcode 0xBF: `CP A` - compare the contents of register A with register A by
/// computing A minus the operand and discarding the result; register A
/// is unchanged. Zero is set exactly when the two are equal, Half-Carry
/// and Carry are the borrows of the subtraction, Negative is set;
/// length 1 byte; 1 machine cycle.
pub fn cp_a(cpu: &mut Cpu)
    ensures
        *final(cpu) == spec_cp_a_post(*old(cpu), old(cpu).a, 1, 1),
{
    let value = cpu.a;
    cpu.zero = cpu.a.wrapping_sub(value) == 0;
    cpu.negative = true;
    cpu.half_carry = cpu.a % 16 < value % 16;
    cpu.carry = cpu.a < value;
    cpu.move_program_counter_by(1);
    cpu.add_cycles(1);
}

/// Opcode 0xC6: `ADD A,d8` - add the contents of the 8-bit immediate operand d8 to register A and store the
/// result in A. Zero, Half-Carry and Carry are recomputed from the
/// addition, Negative is cleared;
/// length 2 bytes; 2 machine cycles.
pub fn add_a_d8(cpu: &mut Cpu, memory: &Memory)
    requires
        memory.wf(),
    ensures
        *final(cpu) == spec_add_a_post(*old(cpu), spec_imm8(memory@, old(cpu).program_counter), 2, 2),
{
    let value = memory.read_byte_at(cpu.program_counter.wrapping_add(1));
    cpu.half_carry = cpu.a % 16 + value % 16 > 15;
    cpu.carry = cpu.a as u16 + value as u16 > 255;
    cpu.a = cpu.a.wrapping_add(value);
    cpu.zero = cpu.a == 0;
    cpu.negative = false;
    cpu.move_program_counter_by(2);
    cpu.add_cycles(2);
}

/// Opcode 0xD6: `SUB d8` - subtract the contents of the 8-bit immediate operand d8 from register A and
/// store the result in A. Zero is recomputed, Half-Carry and Carry are
/// the nibble and byte borrows of the subtraction, Negative is set;
/// length 2 bytes; 2 machine cycles.
pub fn sub_d8(cpu: &mut Cpu, memory: &Memory)
    requires
        memory.wf(),
    ensures
        *final(cpu) == spec_sub_a_post(*old(cpu), spec_imm8(memory@, old(cpu).program_counter), 2, 2),
{
    let value = memory.read_byte_at(cpu.program_counter.wrapping_add(1));
    cpu.half_carry = cpu.a % 16 < value % 16;
    cpu.carry = cpu.a < value;
    cpu.a = cpu.a.wrapping_sub(value);
    cpu.zero = cpu.a == 0;
    cpu.negative = true;
    cpu.move_program_counter_by(2);
    cpu.add_cycles(2);
}

/// Opcode 0xE6: `AND d8` - bitwise-AND the contents of the 8-bit immediate operand d8 into register A.
/// Zero is recomputed, Half-Carry is set, Negative and Carry are
/// cleared;
/// length 2 bytes; 2 machine cycles.
pub fn and_d8(cpu: &mut Cpu, memory: &Memory)
    requires
        memory.wf(),
    ensures
        *final(cpu) == spec_and_a_post(*old(cpu), spec_imm8(memory@, old(cpu).program_counter), 2, 2),
{
    let value = memory.read_byte_at(cpu.program_counter.wrapping_add(1));
    cpu.a = cpu.a & value;
    cpu.zero = cpu.a == 0;
    cpu.negative = false;
    cpu.half_carry = true;
    cpu.carry = false;
    cpu.move_program_counter_by(2);
    cpu.add_cycles(2);
}

/// Opcode 0xEE: `XOR d8` - bitwise-XOR the contents of the 8-bit immediate operand d8 into register A.
/// Zero is recomputed, Negative, Half-Carry and Carry are cleared;
/// length 2 bytes; 2 machine cycles.
pub fn xor_d8(cpu: &mut Cpu, memory: &Memory)
    requires
        memory.wf(),
    ensures
        *final(cpu) == spec_xor_a_post(*old(cpu), spec_imm8(memory@, old(cpu).program_counter), 2, 2),
{
    let value = memory.read_byte_at(cpu.program_counter.wrapping_add(1));
    cpu.a = cpu.a ^ value;
    cpu.zero = cpu.a == 0;
    cpu.negative = false;
    cpu.half_carry = false;
    cpu.carry = false;
    cpu.move_program_counter_by(2);
    cpu.add_cycles(2);
}

/// Opcode 0xF6: `OR d8` - bitwise-OR the contents of the 8-bit immediate operand d8 into register A.
/// Zero is recomputed, Negative, Half-Carry and Carry are cleared;
/// length 2 bytes; 2 machine cycles.
pub fn or_d8(cpu: &mut Cpu, memory: &Memory)
    requires
        memory.wf(),
    ensures
        *final(cpu) == spec_or_a_post(*old(cpu), spec_imm8(memory@, old(cpu).program_counter), 2, 2),
{
    let value = memory.read_byte_at(cpu.program_counter.wrapping_add(1));
    cpu.a = cpu.a | value;
    cpu.zero = cpu.a == 0;
    cpu.negative = false;
    cpu.half_carry = false;
    cpu.carry = false;
    cpu.move_program_counter_by(2);
    cpu.add_cycles(2);
}

/// Opcode 0xFE: `CP d8` - compare the contents of the 8-bit immediate operand d8 with register A by
/// computing A minus the operand and discarding the result; register A
/// is unchanged. Zero is set exactly when the two are equal, Half-Carry
/// and Carry are the borrows of the subtraction, Negative is set;
/// length 2 bytes; 2 machine cycles.
pub fn cp_d8(cpu: &mut Cpu, memory: &Memory)
    requires
        memory.wf(),
    ensures
        *final(cpu) == spec_cp_a_post(*old(cpu), spec_imm8(memory@, old(cpu).program_counter), 2, 2),
{
    let value = memory.read_byte_at(cpu.program_counter.wrapping_add(1));
    cpu.zero = cpu.a.wrapping_sub(value) == 0;
    cpu.negative = true;
    cpu.half_carry = cpu.a % 16 < value % 16;
    cpu.carry = cpu.a < value;
    cpu.move_program_counter_by(2);
    cpu.add_cycles(2);
}

/// Opcode 0xC0: `RET NZ` - if the Zero flag is clear, pop the return address
/// from the stack into the program counter (5 machine cycles);
/// otherwise fall through to the next instruction (2 machine cycles).
/// No flags are affected; length 1 byte.
pub fn ret_nz(cpu: &mut Cpu, memory: &Memory)
    requires
        memory.wf(),
    ensures
        *final(cpu) == (if !old(cpu).zero {
        spec_ret_post(*old(cpu), memory@, 5)
    } else {
        spec_advance(*old(cpu), 1, 2)
    }),
{
    if !cpu.zero {
        let (address, new_stack_pointer) = memory.pop_stack_u16(cpu.stack_pointer);
        cpu.program_counter = address;
        cpu.stack_pointer = new_stack_pointer;
        cpu.add_cycles(5);
    } else {
        cpu.move_program_counter_by(1);
        cpu.add_cycles(2);
    }
}

/// Opcode 0xC8: `RET Z` - if the Zero flag is set, pop the return address
/// from the stack into the program counter (5 machine cycles);
/// otherwise fall through to the next instruction (2 machine cycles).
/// No flags are affected; length 1 byte.
pub fn ret_z(cpu: &mut Cpu, memory: &Memory)
    requires
        memory.wf(),
    ensures
        *final(cpu) == (if old(cpu).zero {
        spec_ret_post(*old(cpu), memory@, 5)
    } else {
        spec_advance(*old(cpu), 1, 2)
    }),
{
    if cpu.zero {
        let (address, new_stack_pointer) = memory.pop_stack_u16(cpu.stack_pointer);
        cpu.program_counter = address;
        cpu.stack_pointer = new_stack_pointer;
        cpu.add_cycles(5);
    } else {
        cpu.move_program_counter_by(1);
        cpu.add_cycles(2);
    }
}

/// Opcode 0xD0: `RET NC` - if the Carry flag is clear, pop the return address
/// from the stack into the program counter (5 machine cycles);
/// otherwise fall through to the next instruction (2 machine cycles).
/// No flags are affected; length 1 byte.
pub fn ret_nc(cpu: &mut Cpu, memory: &Memory)
    requires
        memory.wf(),
    ensures
        *final(cpu) == (if !old(cpu).carry {
        spec_ret_post(*old(cpu), memory@, 5)
    } else {
        spec_advance(*old(cpu), 1, 2)
    }),
{
    if !cpu.carry {
        let (address, new_stack_pointer) = memory.pop_stack_u16(cpu.stack_pointer);
        cpu.program_counter = address;
        cpu.stack_pointer = new_stack_pointer;
        cpu.add_cycles(5);
    } else {
        cpu.move_program_counter_by(1);
        cpu.add_cycles(2);
    }
}

/// Opcode 0xD8: `RET C` - if the Carry flag is set, pop the return address
/// from the stack into the program counter (5 machine cycles);
/// otherwise fall through to the next instruction (2 machine cycles).
/// No flags are affected; length 1 byte.
pub fn ret_c(cpu: &mut Cpu, memory: &Memory)
    requires
        memory.wf(),
    ensures
        *final(cpu) == (if old(cpu).carry {
        spec_ret_post(*old(cpu), memory@, 5)
    } else {
        spec_advance(*old(cpu), 1, 2)
    }),
{
    if cpu.carry {
        let (address, new_stack_pointer) = memory.pop_stack_u16(cpu.stack_pointer);
        cpu.program_counter = address;
        cpu.stack_pointer = new_stack_pointer;
        cpu.add_cycles(5);
    } else {
        cpu.move_program_counter_by(1);
        cpu.add_cycles(2);
    }
}

/// Opcode 0xC9: `RET` - return from a subroutine by popping the return
/// address from the stack into the program counter. No flags are
/// affected; length 1 byte; 4 machine cycles.
pub fn ret(cpu: &mut Cpu, memory: &Memory)
    requires
        memory.wf(),
    ensures
        *final(cpu) == spec_ret_post(*old(cpu), memory@, 4),
{
    let (address, new_stack_pointer) = memory.pop_stack_u16(cpu.stack_pointer);
    cpu.program_counter = address;
    cpu.stack_pointer = new_stack_pointer;
    cpu.add_cycles(4);
}

/// Opcode 0xD9: `RETI` - return from an interrupt service routine: pop the
/// return address from the stack into the program counter, clear the
/// interrupt master enable flag, and acknowledge all pending interrupts
/// by clearing the five interrupt request bits (bits 0 to 4 of the byte
/// at 0xFF0F, preserving bits 5 to 7). No flags are affected; length 1
/// byte; 4 machine cycles.
pub fn reti(cpu: &mut Cpu, memory: &mut Memory)
    requires
        old(memory).wf(),
    ensures
        final(memory).wf(),
        *final(cpu) == spec_reti_cpu_post(*old(cpu), old(memory)@),
        final(memory)@ == old(memory)@.update(INTERRUPT_REQUEST_ADDRESS as int, (old(memory)@[INTERRUPT_REQUEST_ADDRESS as int] & 0xE0)),
{
    let (address, new_stack_pointer) = memory.pop_stack_u16(cpu.stack_pointer);
    cpu.program_counter = address;
    cpu.stack_pointer = new_stack_pointer;
    cpu.ime = false;
    let requests = memory.read_byte_at(INTERRUPT_REQUEST_ADDRESS);
    memory.write_byte_at(INTERRUPT_REQUEST_ADDRESS, requests & 0xE0);
    cpu.add_cycles(4);
}

/// Opcode 0xC1: `POP BC` - pop two bytes from the stack into register
/// pair BC and increment the stack pointer twice. No flags are
/// affected; length 1 byte; 3 machine cycles.
pub fn pop_bc(cpu: &mut Cpu, memory: &Memory)
    requires
        memory.wf(),
    ensures
        *final(cpu) == spec_pop_r16_post(*old(cpu), memory@, Reg16::BC),
{
    let (value, new_stack_pointer) = memory.pop_stack_u16(cpu.stack_pointer);
    cpu.set_bc(value);
    cpu.stack_pointer = new_stack_pointer;
    cpu.move_program_counter_by(1);
    cpu.add_cycles(3);
}

/// Opcode 0xD1: `POP DE` - pop two bytes from the stack into register
/// pair DE and increment the stack pointer twice. No flags are
/// affected; length 1 byte; 3 machine cycles.
pub fn pop_de(cpu: &mut Cpu, memory: &Memory)
    requires
        memory.wf(),
    ensures
        *final(cpu) == spec_pop_r16_post(*old(cpu), memory@, Reg16::DE),
{
    let (value, new_stack_pointer) = memory.pop_stack_u16(cpu.stack_pointer);
    cpu.set_de(value);
    cpu.stack_pointer = new_stack_pointer;
    cpu.move_program_counter_by(1);
    cpu.add_cycles(3);
}

/// Opcode 0xE1: `POP HL` - pop two bytes from the stack into register
/// pair HL and increment the stack pointer twice. No flags are
/// affected; length 1 byte; 3 machine cycles.
pub fn pop_hl(cpu: &mut Cpu, memory: &Memory)
    requires
        memory.wf(),
    ensures
        *final(cpu) == spec_pop_r16_post(*old(cpu), memory@, Reg16::HL),
{
    let (value, new_stack_pointer) = memory.pop_stack_u16(cpu.stack_pointer);
    cpu.set_hl(value);
    cpu.stack_pointer = new_stack_pointer;
    cpu.move_program_counter_by(1);
    cpu.add_cycles(3);
}

/// Opcode 0xC5: `PUSH BC` - push the contents of register pair BC
/// onto the stack, decrementing the stack pointer twice. No flags are
/// affected; length 1 byte; 4 machine cycles.
pub fn push_bc(cpu: &mut Cpu, memory: &mut Memory)
    requires
        old(memory).wf(),
    ensures
        final(memory).wf(),
        *final(cpu) == spec_push_r16_post(*old(cpu)),
        final(memory)@ == stack_push16(old(memory)@, old(cpu).stack_pointer, old(cpu).spec_bc()),
{
    let value = cpu.bc();
    cpu.stack_pointer = memory.push_stack_u16(value, cpu.stack_pointer);
    cpu.move_program_counter_by(1);
    cpu.add_cycles(4);
}

/// Opcode 0xD5: `PUSH DE` - push the contents of register pair DE
/// onto the stack, decrementing the stack pointer twice. No flags are
/// affected; length 1 byte; 4 machine cycles.
pub fn push_de(cpu: &mut Cpu, memory: &mut Memory)
    requires
        old(memory).wf(),
    ensures
        final(memory).wf(),
        *final(cpu) == spec_push_r16_post(*old(cpu)),
        final(memory)@ == stack_push16(old(memory)@, old(cpu).stack_pointer, old(cpu).spec_de()),
{
    let value = cpu.de();
    cpu.stack_pointer = memory.push_stack_u16(value, cpu.stack_pointer);
    cpu.move_program_counter_by(1);
    cpu.add_cycles(4);
}

/// Opcode 0xE5: `PUSH HL` - push the contents of register pair HL
/// onto the stack, decrementing the stack pointer twice. No flags are
/// affected; length 1 byte; 4 machine cycles.
pub fn push_hl(cpu: &mut Cpu, memory: &mut Memory)
    requires
        old(memory).wf(),
    ensures
        final(memory).wf(),
        *final(cpu) == spec_push_r16_post(*old(cpu)),
        final(memory)@ == stack_push16(old(memory)@, old(cpu).stack_pointer, old(cpu).spec_hl()),
{
    let value = cpu.hl();
    cpu.stack_pointer = memory.push_stack_u16(value, cpu.stack_pointer);
    cpu.move_program_counter_by(1);
    cpu.add_cycles(4);
}

/// Opcode 0xF1: `POP AF` - pop two bytes from the stack: the lower byte
/// unpacks into the four flags (Carry at bit 0, Half-Carry at bit 1,
/// Negative at bit 2, Zero at bit 3), the upper byte goes to register A.
/// The stack pointer is incremented twice; length 1 byte; 3 machine
/// cycles.
pub fn pop_af(cpu: &mut Cpu, memory: &Memory)
    requires
        memory.wf(),
    ensures
        *final(cpu) == spec_pop_af_post(*old(cpu), memory@),
{
    let (flags, after_flags) = memory.pop_stack_u8(cpu.stack_pointer);
    cpu.carry = flags % 2 == 1;
    cpu.half_carry = flags / 2 % 2 == 1;
    cpu.negative = flags / 4 % 2 == 1;
    cpu.zero = flags / 8 % 2 == 1;
    let (a_value, new_stack_pointer) = memory.pop_stack_u8(after_flags);
    cpu.a = a_value;
    cpu.stack_pointer = new_stack_pointer;
    cpu.move_program_counter_by(1);
    cpu.add_cycles(3);
}

/// Opcode 0xF5: `PUSH AF` - push register A and the four flags onto the
/// stack: A is the upper byte, and the lower byte packs the flags (Carry
/// at bit 0, Half-Carry at bit 1, Negative at bit 2, Zero at bit 3). The
/// stack pointer is decremented twice; length 1 byte; 4 machine cycles.
pub fn push_af(cpu: &mut Cpu, memory: &mut Memory)
    requires
        old(memory).wf(),
    ensures
        final(memory).wf(),
        *final(cpu) == spec_push_r16_post(*old(cpu)),
        final(memory)@ == stack_push16(old(memory)@, old(cpu).stack_pointer, spec_word(spec_pack_flags(*old(cpu)), old(cpu).a)),
{
    let mut flags: u8 = 0;
    if cpu.carry {
        flags = flags + 1;
    }
    if cpu.half_carry {
        flags = flags + 2;
    }
    if cpu.negative {
        flags = flags + 4;
    }
    if cpu.zero {
        flags = flags + 8;
    }
    let value = lsb_msb_to_u16(flags, cpu.a);
    cpu.stack_pointer = memory.push_stack_u16(value, cpu.stack_pointer);
    cpu.move_program_counter_by(1);
    cpu.add_cycles(4);
}

/// Opcode 0xC3: `JP a16` - load the 16-bit immediate operand a16 into
/// the program counter unconditionally. A taken jump costs 4 machine
/// cycles, a skipped one 3; no flags are affected; length 3 bytes.
pub fn jp_a16(cpu: &mut Cpu, memory: &Memory)
    requires
        memory.wf(),
    ensures
        *final(cpu) == spec_jp_post(*old(cpu), spec_imm16(memory@, old(cpu).program_counter), true),
{
    cpu.program_counter = memory.read_16_bit_value_at(cpu.program_counter.wrapping_add(1));
    cpu.add_cycles(4);
}

/// Opcode 0xC2: `JP NZ,a16` - load the 16-bit immediate operand a16 into
/// the program counter if the Zero flag is clear. A taken jump costs 4 machine
/// cycles, a skipped one 3; no flags are affected; length 3 bytes.
pub fn jp_nz_a16(cpu: &mut Cpu, memory: &Memory)
    requires
        memory.wf(),
    ensures
        *final(cpu) == spec_jp_post(*old(cpu), spec_imm16(memory@, old(cpu).program_counter), !old(cpu).zero),
{
    if !cpu.zero {
        cpu.program_counter = memory.read_16_bit_value_at(cpu.program_counter.wrapping_add(1));
        cpu.add_cycles(4);
    } else {
        cpu.move_program_counter_by(3);
        cpu.add_cycles(3);
    }
}

/// Opcode 0xCA: `JP Z,a16` - load the 16-bit immediate operand a16 into
/// the program counter if the Zero flag is set. A taken jump costs 4 machine
/// cycles, a skipped one 3; no flags are affected; length 3 bytes.
pub fn jp_z_a16(cpu: &mut Cpu, memory: &Memory)
    requires
        memory.wf(),
    ensures
        *final(cpu) == spec_jp_post(*old(cpu), spec_imm16(memory@, old(cpu).program_counter), old(cpu).zero),
{
    if cpu.zero {
        cpu.program_counter = memory.read_16_bit_value_at(cpu.program_counter.wrapping_add(1));
        cpu.add_cycles(4);
    } else {
        cpu.move_program_counter_by(3);
        cpu.add_cycles(3);
    }
}

/// Opcode 0xD2: `JP NC,a16` - load the 16-bit immediate operand a16 into
/// the program counter if the Carry flag is clear. A taken jump costs 4 machine
/// cycles, a skipped one 3; no flags are affected; length 3 bytes.
pub fn jp_nc_a16(cpu: &mut Cpu, memory: &Memory)
    requires
        memory.wf(),
    ensures
        *final(cpu) == spec_jp_post(*old(cpu), spec_imm16(memory@, old(cpu).program_counter), !old(cpu).carry),
{
    if !cpu.carry {
        cpu.program_counter = memory.read_16_bit_value_at(cpu.program_counter.wrapping_add(1));
        cpu.add_cycles(4);
    } else {
        cpu.move_program_counter_by(3);
        cpu.add_cycles(3);
    }
}

/// Opcode 0xDA: `JP C,a16` - load the 16-bit immediate operand a16 into
/// the program counter if the Carry flag is set. A taken jump costs 4 machine
/// cycles, a skipped one 3; no flags are affected; length 3 bytes.
pub fn jp_c_a16(cpu: &mut Cpu, memory: &Memory)
    requires
        memory.wf(),
    ensures
        *final(cpu) == spec_jp_post(*old(cpu), spec_imm16(memory@, old(cpu).program_counter), old(cpu).carry),
{
    if cpu.carry {
        cpu.program_counter = memory.read_16_bit_value_at(cpu.program_counter.wrapping_add(1));
        cpu.add_cycles(4);
    } else {
        cpu.move_program_counter_by(3);
        cpu.add_cycles(3);
    }
}

/// Opcode 0xE9: `JP (HL)` - load the contents of register pair HL into
/// the program counter. No flags are affected; length 1 byte; 1 machine
/// cycle.
pub fn jp_hl(cpu: &mut Cpu)
    ensures
        *final(cpu) == spec_jp_hl_post(*old(cpu)),
{
    cpu.program_counter = cpu.hl();
    cpu.add_cycles(1);
}

/// Opcode 0xCD: `CALL a16` - push the address of the instruction following
/// the call (the program counter plus 3) onto the stack and load the
/// 16-bit immediate operand a16 into the program counter. No flags are
/// affected; length 3 bytes; 6 machine cycles.
pub fn call_a16(cpu: &mut Cpu, memory: &mut Memory)
    requires
        old(memory).wf(),
    ensures
        final(memory).wf(),
        *final(cpu) == spec_call_post(*old(cpu), spec_imm16(old(memory)@, old(cpu).program_counter), true),
        final(memory)@ == stack_push16(old(memory)@, old(cpu).stack_pointer, wrap_add_u16(old(cpu).program_counter, 3)),
{
    let target = memory.read_16_bit_value_at(cpu.program_counter.wrapping_add(1));
    let return_address = cpu.program_counter.wrapping_add(3);
    cpu.stack_pointer = memory.push_stack_u16(return_address, cpu.stack_pointer);
    cpu.program_counter = target;
    cpu.add_cycles(6);
}

/// Opcode 0xC4: `CALL NZ,a16` - if the Zero flag is clear, push the address of the
/// instruction following the call (the program counter plus 3) onto
/// the stack and load the 16-bit immediate operand a16 into the
/// program counter (6 machine cycles); otherwise fall through (3
/// machine cycles). No flags are affected; length 3 bytes.
pub fn call_nz_a16(cpu: &mut Cpu, memory: &mut Memory)
    requires
        old(memory).wf(),
    ensures
        final(memory).wf(),
        *final(cpu) == spec_call_post(*old(cpu), spec_imm16(old(memory)@, old(cpu).program_counter), !old(cpu).zero),
        final(memory)@ == (if !old(cpu).zero {
            stack_push16(old(memory)@, old(cpu).stack_pointer, wrap_add_u16(old(cpu).program_counter, 3))
        } else {
            old(memory)@
        }),
{
    if !cpu.zero {
        let target = memory.read_16_bit_value_at(cpu.program_counter.wrapping_add(1));
        let return_address = cpu.program_counter.wrapping_add(3);
        cpu.stack_pointer = memory.push_stack_u16(return_address, cpu.stack_pointer);
        cpu.program_counter = target;
        cpu.add_cycles(6);
    } else {
        cpu.move_program_counter_by(3);
        cpu.add_cycles(3);
    }
}

/// Opcode 0xCC: `CALL Z,a16` - if the Zero flag is set, push the address of the
/// instruction following the call (the program counter plus 3) onto
/// the stack and load the 16-bit immediate operand a16 into the
/// program counter (6 machine cycles); otherwise fall through (3
/// machine cycles). No flags are affected; length 3 bytes.
pub fn call_z_a16(cpu: &mut Cpu, memory: &mut Memory)
    requires
        old(memory).wf(),
    ensures
        final(memory).wf(),
        *final(cpu) == spec_call_post(*old(cpu), spec_imm16(old(memory)@, old(cpu).program_counter), old(cpu).zero),
        final(memory)@ == (if old(cpu).zero {
            stack_push16(old(memory)@, old(cpu).stack_pointer, wrap_add_u16(old(cpu).program_counter, 3))
        } else {
            old(memory)@
        }),
{
    if cpu.zero {
        let target = memory.read_16_bit_value_at(cpu.program_counter.wrapping_add(1));
        let return_address = cpu.program_counter.wrapping_add(3);
        cpu.stack_pointer = memory.push_stack_u16(return_address, cpu.stack_pointer);
        cpu.program_counter = target;
        cpu.add_cycles(6);
    } else {
        cpu.move_program_counter_by(3);
        cpu.add_cycles(3);
    }
}

/// Opcode 0xD4: `CALL NC,a16` - if the Carry flag is clear, push the address of the
/// instruction following the call (the program counter plus 3) onto
/// the stack and load the 16-bit immediate operand a16 into the
/// program counter (6 machine cycles); otherwise fall through (3
/// machine cycles). No flags are affected; length 3 bytes.
pub fn call_nc_a16(cpu: &mut Cpu, memory: &mut Memory)
    requires
        old(memory).wf(),
    ensures
        final(memory).wf(),
        *final(cpu) == spec_call_post(*old(cpu), spec_imm16(old(memory)@, old(cpu).program_counter), !old(cpu).carry),
        final(memory)@ == (if !old(cpu).carry {
            stack_push16(old(memory)@, old(cpu).stack_pointer, wrap_add_u16(old(cpu).program_counter, 3))
        } else {
            old(memory)@
        }),
{
    if !cpu.carry {
        let target = memory.read_16_bit_value_at(cpu.program_counter.wrapping_add(1));
        let return_address = cpu.program_counter.wrapping_add(3);
        cpu.stack_pointer = memory.push_stack_u16(return_address, cpu.stack_pointer);
        cpu.program_counter = target;
        cpu.add_cycles(6);
    } else {
        cpu.move_program_counter_by(3);
        cpu.add_cycles(3);
    }
}

/// Opcode 0xDC: `CALL C,a16` - if the Carry flag is set, push the address of the
/// instruction following the call (the program counter plus 3) onto
/// the stack and load the 16-bit immediate operand a16 into the
/// program counter (6 machine cycles); otherwise fall through (3
/// machine cycles). No flags are affected; length 3 bytes.
pub fn call_c_a16(cpu: &mut Cpu, memory: &mut Memory)
    requires
        old(memory).wf(),
    ensures
        final(memory).wf(),
        *final(cpu) == spec_call_post(*old(cpu), spec_imm16(old(memory)@, old(cpu).program_counter), old(cpu).carry),
        final(memory)@ == (if old(cpu).carry {
            stack_push16(old(memory)@, old(cpu).stack_pointer, wrap_add_u16(old(cpu).program_counter, 3))
        } else {
            old(memory)@
        }),
{
    if cpu.carry {
        let target = memory.read_16_bit_value_at(cpu.program_counter.wrapping_add(1));
        let return_address = cpu.program_counter.wrapping_add(3);
        cpu.stack_pointer = memory.push_stack_u16(return_address, cpu.stack_pointer);
        cpu.program_counter = target;
        cpu.add_cycles(6);
    } else {
        cpu.move_program_counter_by(3);
        cpu.add_cycles(3);
    }
}

/// Opcode 0xE0: `LD (a8),A` - store the contents of register A at the
/// address 0xFF00 + a8, where a8 is the 8-bit immediate operand. No
/// flags are affected; length 2 bytes; 3 machine cycles.
pub fn ld_a8_a(cpu: &mut Cpu, memory: &mut Memory)
    requires
        old(memory).wf(),
    ensures
        final(memory).wf(),
        *final(cpu) == spec_advance(*old(cpu), 2, 3),
        final(memory)@ == old(memory)@.update(spec_high_address(spec_imm8(old(memory)@, old(cpu).program_counter)) as int, old(cpu).a),
{
    let low = memory.read_byte_at(cpu.program_counter.wrapping_add(1));
    let address = 0xFF00 + low as u16;
    memory.write_byte_at(address, cpu.a);
    cpu.move_program_counter_by(2);
    cpu.add_cycles(3);
}

/// Opcode 0xF0: `LD A,(a8)` - load the byte at address 0xFF00 + a8 into
/// register A, where a8 is the 8-bit immediate operand. No flags are
/// affected; length 2 bytes; 3 machine cycles.
pub fn ld_a_a8(cpu: &mut Cpu, memory: &Memory)
    requires
        memory.wf(),
    ensures
        *final(cpu) == spec_ld_r8_post(*old(cpu), Reg8::A, memory@[spec_high_address(spec_imm8(memory@, old(cpu).program_counter)) as int], 2, 3),
{
    let low = memory.read_byte_at(cpu.program_counter.wrapping_add(1));
    let address = 0xFF00 + low as u16;
    cpu.a = memory.read_byte_at(address);
    cpu.move_program_counter_by(2);
    cpu.add_cycles(3);
}

/// Opcode 0xE2: `LD (C),A` - store the contents of register A at the
/// address 0xFF00 + C. No flags are affected; length 1 byte; 2 machine
/// cycles.
pub fn ld_port_c_a(cpu: &mut Cpu, memory: &mut Memory)
    requires
        old(memory).wf(),
    ensures
        final(memory).wf(),
        *final(cpu) == spec_advance(*old(cpu), 1, 2),
        final(memory)@ == old(memory)@.update(spec_high_address(old(cpu).c) as int, old(cpu).a),
{
    let address = 0xFF00 + cpu.c as u16;
    memory.write_byte_at(address, cpu.a);
    cpu.move_program_counter_by(1);
    cpu.add_cycles(2);
}

/// Opcode 0xF2: `LD A,(C)` - load the byte at address 0xFF00 + C into
/// register A. No flags are affected; length 1 byte; 2 machine cycles.
pub fn ld_a_port_c(cpu: &mut Cpu, memory: &Memory)
    requires
        memory.wf(),
    ensures
        *final(cpu) == spec_ld_r8_post(*old(cpu), Reg8::A, memory@[spec_high_address(old(cpu).c) as int], 1, 2),
{
    let address = 0xFF00 + cpu.c as u16;
    cpu.a = memory.read_byte_at(address);
    cpu.move_program_counter_by(1);
    cpu.add_cycles(2);
}

/// Opcode 0xEA: `LD (a16),A` - store the contents of register A at the
/// address specified by the 16-bit immediate operand a16. No flags are
/// affected; length 3 bytes; 4 machine cycles.
pub fn ld_a16_a(cpu: &mut Cpu, memory: &mut Memory)
    requires
        old(memory).wf(),
    ensures
        final(memory).wf(),
        *final(cpu) == spec_advance(*old(cpu), 3, 4),
        final(memory)@ == old(memory)@.update(spec_imm16(old(memory)@, old(cpu).program_counter) as int, old(cpu).a),
{
    let address = memory.read_16_bit_value_at(cpu.program_counter.wrapping_add(1));
    memory.write_byte_at(address, cpu.a);
    cpu.move_program_counter_by(3);
    cpu.add_cycles(4);
}

/// Opcode 0xFA: `LD A,(a16)` - load the byte at the address specified by
/// the 16-bit immediate operand a16 into register A. No flags are
/// affected; length 3 bytes; 4 machine cycles.
pub fn ld_a_a16(cpu: &mut Cpu, memory: &Memory)
    requires
        memory.wf(),
    ensures
        *final(cpu) == spec_ld_r8_post(*old(cpu), Reg8::A, memory@[spec_imm16(memory@, old(cpu).program_counter) as int], 3, 4),
{
    let address = memory.read_16_bit_value_at(cpu.program_counter.wrapping_add(1));
    cpu.a = memory.read_byte_at(address);
    cpu.move_program_counter_by(3);
    cpu.add_cycles(4);
}

/// Opcode 0xE8: `ADD SP,s8` - add the signed 8-bit immediate operand to
/// the stack pointer, wrapping modulo 2^16. Zero and Negative are
/// cleared; Half-Carry and Carry are recomputed from the low-byte
/// addition (carry out of bit 3 and bit 7); length 2 bytes; 4 machine
/// cycles.
pub fn add_sp_s8(cpu: &mut Cpu, memory: &Memory)
    requires
        memory.wf(),
    ensures
        *final(cpu) == spec_add_sp_s8_post(*old(cpu), spec_imm8(memory@, old(cpu).program_counter)),
{
    let offset = memory.read_byte_at(cpu.program_counter.wrapping_add(1));
    cpu.zero = false;
    cpu.negative = false;
    cpu.half_carry = cpu.stack_pointer % 16 + (offset % 16) as u16 > 15;
    cpu.carry = cpu.stack_pointer % 256 + offset as u16 > 255;
    let base = cpu.stack_pointer.wrapping_add(offset as u16);
    cpu.stack_pointer = if offset < 128 {
        base
    } else {
        base.wrapping_sub(256)
    };
    cpu.move_program_counter_by(2);
    cpu.add_cycles(4);
}

/// Opcode 0xF8: `LD HL,SP+s8` - add the signed 8-bit immediate operand to
/// the stack pointer, wrapping modulo 2^16, and store the result in
/// register pair HL; the stack pointer itself is unchanged. Zero and
/// Negative are cleared; Half-Carry and Carry are recomputed from the
/// low-byte addition; length 2 bytes; 3 machine cycles.
pub fn ld_hl_sp_plus_s8(cpu: &mut Cpu, memory: &Memory)
    requires
        memory.wf(),
    ensures
        *final(cpu) == spec_ld_hl_sp_s8_post(*old(cpu), spec_imm8(memory@, old(cpu).program_counter)),
{
    let offset = memory.read_byte_at(cpu.program_counter.wrapping_add(1));
    cpu.zero = false;
    cpu.negative = false;
    cpu.half_carry = cpu.stack_pointer % 16 + (offset % 16) as u16 > 15;
    cpu.carry = cpu.stack_pointer % 256 + offset as u16 > 255;
    let base = cpu.stack_pointer.wrapping_add(offset as u16);
    let result = if offset < 128 {
        base
    } else {
        base.wrapping_sub(256)
    };
    cpu.set_hl(result);
    cpu.move_program_counter_by(2);
    cpu.add_cycles(3);
}

/// Opcode 0xF9: `LD SP,HL` - load the contents of register pair HL into
/// the stack pointer. No flags are affected; length 1 byte; 2 machine
/// cycles.
pub fn ld_sp_hl(cpu: &mut Cpu)
    ensures
        *final(cpu) == spec_ld_sp_hl_post(*old(cpu)),
{
    cpu.stack_pointer = cpu.hl();
    cpu.move_program_counter_by(1);
    cpu.add_cycles(2);
}

/// Opcode 0xF3: `DI` - clear the interrupt master enable flag and, as an
/// explicit design choice of this core, also force all five interrupt
/// request bits false (bits 0 to 4 of the byte at 0xFF0F, preserving
/// bits 5 to 7). No flags are affected; length 1 byte; 1 machine cycle.
pub fn di(cpu: &mut Cpu, memory: &mut Memory)
    requires
        old(memory).wf(),
    ensures
        final(memory).wf(),
        *final(cpu) == spec_di_cpu_post(*old(cpu)),
        final(memory)@ == old(memory)@.update(INTERRUPT_REQUEST_ADDRESS as int, (old(memory)@[INTERRUPT_REQUEST_ADDRESS as int] & 0xE0)),
{
    let requests = memory.read_byte_at(INTERRUPT_REQUEST_ADDRESS);
    memory.write_byte_at(INTERRUPT_REQUEST_ADDRESS, requests & 0xE0);
    cpu.ime = false;
    cpu.move_program_counter_by(1);
    cpu.add_cycles(1);
}

/// Opcode 0xFB: `EI` - set the interrupt master enable flag and allow
/// maskable interrupts. No flags are affected; length 1 byte; 1 machine
/// cycle.
pub fn ei(cpu: &mut Cpu)
    ensures
        *final(cpu) == spec_ei_post(*old(cpu)),
{
    cpu.ime = true;
    cpu.move_program_counter_by(1);
    cpu.add_cycles(1);
}

/// One fetch-decode-execute step for opcodes 0x00 to 0x3F:
/// the loads, 16-bit arithmetic, rotates, relative jumps and flag
/// instructions.
pub open spec fn spec_step_low(
    opcode: u8,
    pre_cpu: Cpu,
    pre_mem: Seq<u8>,
    post_cpu: Cpu,
    post_mem: Seq<u8>,
    r: TickResult,
) -> bool {
    if opcode == 0x00 {
        &&& post_cpu == spec_nop_post(pre_cpu)
            &&& post_mem == pre_mem
            &&& r == TickResult::Executed
    } else if opcode == 0x01 {
        &&& post_cpu == spec_ld_r16_d16_post(pre_cpu, Reg16::BC, spec_imm16(pre_mem, pre_cpu.program_counter))
            &&& post_mem == pre_mem
            &&& r == TickResult::Executed
    } else if opcode == 0x02 {
        &&& post_cpu == spec_advance(pre_cpu, 1, 2)
            &&& post_mem == pre_mem.update(pre_cpu.spec_bc() as int, pre_cpu.a)
            &&& r == TickResult::Executed
    } else if opcode == 0x03 {
        &&& post_cpu == spec_inc_r16_post(pre_cpu, Reg16::BC)
            &&& post_mem == pre_mem
            &&& r == TickResult::Executed
    } else if opcode == 0x04 {
        &&& post_cpu == spec_inc_r8_post(pre_cpu, Reg8::B)
            &&& post_mem == pre_mem
            &&& r == TickResult::Executed
    } else if opcode == 0x05 {
        &&& post_cpu == spec_dec_r8_post(pre_cpu, Reg8::B)
            &&& post_mem == pre_mem
            &&& r == TickResult::Executed
    } else if opcode == 0x06 {
        &&& post_cpu == spec_ld_r8_post(pre_cpu, Reg8::B, spec_imm8(pre_mem, pre_cpu.program_counter), 2, 2)
            &&& post_mem == pre_mem
            &&& r == TickResult::Executed
    } else if opcode == 0x07 {
        &&& post_cpu == spec_rlca_post(pre_cpu)
            &&& post_mem == pre_mem
            &&& r == TickResult::Executed
    } else if opcode == 0x08 {
        &&& post_cpu == spec_advance(pre_cpu, 3, 5)
            &&& post_mem == pre_mem.update(spec_imm16(pre_mem, pre_cpu.program_counter) as int, spec_lsb(pre_cpu.stack_pointer)).update(wrap_add_u16(spec_imm16(pre_mem, pre_cpu.program_counter), 1) as int, spec_msb(pre_cpu.stack_pointer))
            &&& r == TickResult::Executed
    } else if opcode == 0x09 {
        &&& post_cpu == spec_add_hl_r16_post(pre_cpu, Reg16::BC)
            &&& post_mem == pre_mem
            &&& r == TickResult::Executed
    } else if opcode == 0x0A {
        &&& post_cpu == spec_ld_r8_post(pre_cpu, Reg8::A, pre_mem[pre_cpu.spec_bc() as int], 1, 2)
            &&& post_mem == pre_mem
            &&& r == TickResult::Executed
    } else if opcode == 0x0B {
        &&& post_cpu == spec_dec_r16_post(pre_cpu, Reg16::BC)
            &&& post_mem == pre_mem
            &&& r == TickResult::Executed
    } else if opcode == 0x0C {
        &&& post_cpu == spec_inc_r8_post(pre_cpu, Reg8::C)
            &&& post_mem == pre_mem
            &&& r == TickResult::Executed
    } else if opcode == 0x0D {
        &&& post_cpu == spec_dec_r8_post(pre_cpu, Reg8::C)
            &&& post_mem == pre_mem
            &&& r == TickResult::Executed
    } else if opcode == 0x0E {
        &&& post_cpu == spec_ld_r8_post(pre_cpu, Reg8::C, spec_imm8(pre_mem, pre_cpu.program_counter), 2, 2)
            &&& post_mem == pre_mem
            &&& r == TickResult::Executed
    } else if opcode == 0x0F {
        &&& post_cpu == spec_rrca_post(pre_cpu)
            &&& post_mem == pre_mem
            &&& r == TickResult::Executed
    } else if opcode == 0x10 {
        &&& post_cpu == spec_stop_post(pre_cpu, pre_mem[INTERRUPT_ENABLE_ADDRESS as int])
            &&& post_mem == pre_mem
            &&& r == TickResult::Executed
    } else if opcode == 0x11 {
        &&& post_cpu == spec_ld_r16_d16_post(pre_cpu, Reg16::DE, spec_imm16(pre_mem, pre_cpu.program_counter))
            &&& post_mem == pre_mem
            &&& r == TickResult::Executed
    } else if opcode == 0x12 {
        &&& post_cpu == spec_advance(pre_cpu, 1, 2)
            &&& post_mem == pre_mem.update(pre_cpu.spec_de() as int, pre_cpu.a)
            &&& r == TickResult::Executed
    } else if opcode == 0x13 {
        &&& post_cpu == spec_inc_r16_post(pre_cpu, Reg16::DE)
            &&& post_mem == pre_mem
            &&& r == TickResult::Executed
    } else if opcode == 0x14 {
        &&& post_cpu == spec_inc_r8_post(pre_cpu, Reg8::D)
            &&& post_mem == pre_mem
            &&& r == TickResult::Executed
    } else if opcode == 0x15 {
        &&& post_cpu == spec_dec_r8_post(pre_cpu, Reg8::D)
            &&& post_mem == pre_mem
            &&& r == TickResult::Executed
    } else if opcode == 0x16 {
        &&& post_cpu == spec_ld_r8_post(pre_cpu, Reg8::D, spec_imm8(pre_mem, pre_cpu.program_counter), 2, 2)
            &&& post_mem == pre_mem
            &&& r == TickResult::Executed
    } else if opcode == 0x17 {
        &&& post_cpu == spec_rla_post(pre_cpu)
            &&& post_mem == pre_mem
            &&& r == TickResult::Executed
    } else if opcode == 0x18 {
        &&& post_cpu == spec_jr_post(pre_cpu, spec_imm8(pre_mem, pre_cpu.program_counter), true)
            &&& post_mem == pre_mem
            &&& r == TickResult::Executed
    } else if opcode == 0x19 {
        &&& post_cpu == spec_add_hl_r16_post(pre_cpu, Reg16::DE)
            &&& post_mem == pre_mem
            &&& r == TickResult::Executed
    } else if opcode == 0x1A {
        &&& post_cpu == spec_ld_r8_post(pre_cpu, Reg8::A, pre_mem[pre_cpu.spec_de() as int], 1, 2)
            &&& post_mem == pre_mem
            &&& r == TickResult::Executed
    } else if opcode == 0x1B {
        &&& post_cpu == spec_dec_r16_post(pre_cpu, Reg16::DE)
            &&& post_mem == pre_mem
            &&& r == TickResult::Executed
    } else if opcode == 0x1C {
        &&& post_cpu == spec_inc_r8_post(pre_cpu, Reg8::E)
            &&& post_mem == pre_mem
            &&& r == TickResult::Executed
    } else if opcode == 0x1D {
        &&& post_cpu == spec_dec_r8_post(pre_cpu, Reg8::E)
            &&& post_mem == pre_mem
            &&& r == TickResult::Executed
    } else if opcode == 0x1E {
        &&& post_cpu == spec_ld_r8_post(pre_cpu, Reg8::E, spec_imm8(pre_mem, pre_cpu.program_counter), 2, 2)
            &&& post_mem == pre_mem
            &&& r == TickResult::Executed
    } else if opcode == 0x1F {
        &&& post_cpu == spec_rra_post(pre_cpu)
            &&& post_mem == pre_mem
            &&& r == TickResult::Executed
    } else if opcode == 0x20 {
        &&& post_cpu == spec_jr_post(pre_cpu, spec_imm8(pre_mem, pre_cpu.program_counter), !pre_cpu.zero)
            &&& post_mem == pre_mem
            &&& r == TickResult::Executed
    } else if opcode == 0x21 {
        &&& post_cpu == spec_ld_r16_d16_post(pre_cpu, Reg16::HL, spec_imm16(pre_mem, pre_cpu.program_counter))
            &&& post_mem == pre_mem
            &&& r == TickResult::Executed
    } else if opcode == 0x22 {
        &&& post_cpu == spec_ld_hl_step_post(pre_cpu, 1)
            &&& post_mem == pre_mem.update(pre_cpu.spec_hl() as int, pre_cpu.a)
            &&& r == TickResult::Executed
    } else if opcode == 0x23 {
        &&& post_cpu == spec_inc_r16_post(pre_cpu, Reg16::HL)
            &&& post_mem == pre_mem
            &&& r == TickResult::Executed
    } else if opcode == 0x24 {
        &&& post_cpu == spec_inc_r8_post(pre_cpu, Reg8::H)
            &&& post_mem == pre_mem
            &&& r == TickResult::Executed
    } else if opcode == 0x25 {
        &&& post_cpu == spec_dec_r8_post(pre_cpu, Reg8::H)
            &&& post_mem == pre_mem
            &&& r == TickResult::Executed
    } else if opcode == 0x26 {
        &&& post_cpu == spec_ld_r8_post(pre_cpu, Reg8::H, spec_imm8(pre_mem, pre_cpu.program_counter), 2, 2)
            &&& post_mem == pre_mem
            &&& r == TickResult::Executed
    } else if opcode == 0x27 {
        &&& post_cpu == spec_advance(pre_cpu, 1, 1)
            &&& post_mem == pre_mem
            &&& r == TickResult::Unimplemented(opcode)
    } else if opcode == 0x28 {
        &&& post_cpu == spec_jr_post(pre_cpu, spec_imm8(pre_mem, pre_cpu.program_counter), pre_cpu.zero)
            &&& post_mem == pre_mem
            &&& r == TickResult::Executed
    } else if opcode == 0x29 {
        &&& post_cpu == spec_add_hl_r16_post(pre_cpu, Reg16::HL)
            &&& post_mem == pre_mem
            &&& r == TickResult::Executed
    } else if opcode == 0x2A {
        &&& post_cpu == spec_ld_a_hl_step_post(pre_cpu, pre_mem[pre_cpu.spec_hl() as int], 1)
            &&& post_mem == pre_mem
            &&& r == TickResult::Executed
    } else if opcode == 0x2B {
        &&& post_cpu == spec_dec_r16_post(pre_cpu, Reg16::HL)
            &&& post_mem == pre_mem
            &&& r == TickResult::Executed
    } else if opcode == 0x2C {
        &&& post_cpu == spec_inc_r8_post(pre_cpu, Reg8::L)
            &&& post_mem == pre_mem
            &&& r == TickResult::Executed
    } else if opcode == 0x2D {
        &&& post_cpu == spec_dec_r8_post(pre_cpu, Reg8::L)
            &&& post_mem == pre_mem
            &&& r == TickResult::Executed
    } else if opcode == 0x2E {
        &&& post_cpu == spec_ld_r8_post(pre_cpu, Reg8::L, spec_imm8(pre_mem, pre_cpu.program_counter), 2, 2)
            &&& post_mem == pre_mem
            &&& r == TickResult::Executed
    } else if opcode == 0x2F {
        &&& post_cpu == spec_cpl_post(pre_cpu)
            &&& post_mem == pre_mem
            &&& r == TickResult::Executed
    } else if opcode == 0x30 {
        &&& post_cpu == spec_jr_post(pre_cpu, spec_imm8(pre_mem, pre_cpu.program_counter), !pre_cpu.carry)
            &&& post_mem == pre_mem
            &&& r == TickResult::Executed
    } else if opcode == 0x31 {
        &&& post_cpu == spec_ld_r16_d16_post(pre_cpu, Reg16::SP, spec_imm16(pre_mem, pre_cpu.program_counter))
            &&& post_mem == pre_mem
            &&& r == TickResult::Executed
    } else if opcode == 0x32 {
        &&& post_cpu == spec_ld_hl_step_post(pre_cpu, -1)
            &&& post_mem == pre_mem.update(pre_cpu.spec_hl() as int, pre_cpu.a)
            &&& r == TickResult::Executed
    } else if opcode == 0x33 {
        &&& post_cpu == spec_inc_r16_post(pre_cpu, Reg16::SP)
            &&& post_mem == pre_mem
            &&& r == TickResult::Executed
    } else if opcode == 0x34 {
        &&& post_cpu == spec_inc_at_hl_flags_post(pre_cpu, pre_mem[pre_cpu.spec_hl() as int])
            &&& post_mem == pre_mem.update(pre_cpu.spec_hl() as int, wrap_add_u8(pre_mem[pre_cpu.spec_hl() as int], 1))
            &&& r == TickResult::Executed
    } else if opcode == 0x35 {
        &&& post_cpu == spec_dec_at_hl_flags_post(pre_cpu, pre_mem[pre_cpu.spec_hl() as int])
            &&& post_mem == pre_mem.update(pre_cpu.spec_hl() as int, wrap_sub_u8(pre_mem[pre_cpu.spec_hl() as int], 1))
            &&& r == TickResult::Executed
    } else if opcode == 0x36 {
        &&& post_cpu == spec_advance(pre_cpu, 2, 3)
            &&& post_mem == pre_mem.update(pre_cpu.spec_hl() as int, spec_imm8(pre_mem, pre_cpu.program_counter))
            &&& r == TickResult::Executed
    } else if opcode == 0x37 {
        &&& post_cpu == spec_scf_post(pre_cpu)
            &&& post_mem == pre_mem
            &&& r == TickResult::Executed
    } else if opcode == 0x38 {
        &&& post_cpu == spec_jr_post(pre_cpu, spec_imm8(pre_mem, pre_cpu.program_counter), pre_cpu.carry)
            &&& post_mem == pre_mem
            &&& r == TickResult::Executed
    } else if opcode == 0x39 {
        &&& post_cpu == spec_add_hl_r16_post(pre_cpu, Reg16::SP)
            &&& post_mem == pre_mem
            &&& r == TickResult::Executed
    } else if opcode == 0x3A {
        &&& post_cpu == spec_ld_a_hl_step_post(pre_cpu, pre_mem[pre_cpu.spec_hl() as int], -1)
            &&& post_mem == pre_mem
            &&& r == TickResult::Executed
    } else if opcode == 0x3B {
        &&& post_cpu == spec_dec_r16_post(pre_cpu, Reg16::SP)
            &&& post_mem == pre_mem
            &&& r == TickResult::Executed
    } else if opcode == 0x3C {
        &&& post_cpu == spec_inc_r8_post(pre_cpu, Reg8::A)
            &&& post_mem == pre_mem
            &&& r == TickResult::Executed
    } else if opcode == 0x3D {
        &&& post_cpu == spec_dec_r8_post(pre_cpu, Reg8::A)
            &&& post_mem == pre_mem
            &&& r == TickResult::Executed
    } else if opcode == 0x3E {
        &&& post_cpu == spec_ld_r8_post(pre_cpu, Reg8::A, spec_imm8(pre_mem, pre_cpu.program_counter), 2, 2)
            &&& post_mem == pre_mem
            &&& r == TickResult::Executed
    } else if opcode == 0x3F {
        &&& post_cpu == spec_ccf_post(pre_cpu)
            &&& post_mem == pre_mem
            &&& r == TickResult::Executed
    } else {
        &&& post_cpu == pre_cpu
        &&& post_mem == pre_mem
        &&& r == TickResult::DecodeFault(opcode)
    }
}

/// Dispatch one opcode in the range 0x00 to 0x3F:
/// the loads, 16-bit arithmetic, rotates, relative jumps and flag instructions.
pub fn dispatch_low(cpu: &mut Cpu, memory: &mut Memory, opcode: u8) -> (r: TickResult)
    requires
        old(memory).wf(),
        0x00 <= opcode < 0x40,
        opcode == old(memory)@[old(cpu).program_counter as int],
    ensures
        final(memory).wf(),
        spec_step_low(opcode, *old(cpu), old(memory)@, *final(cpu), final(memory)@, r),
{
    match opcode {
        0x00 => {
            nop(cpu);
            TickResult::Executed
        },
        0x01 => {
            ld_bc_d16(cpu, memory);
            TickResult::Executed
        },
        0x02 => {
            ld_bc_a(cpu, memory);
            TickResult::Executed
        },
        0x03 => {
            inc_bc(cpu);
            TickResult::Executed
        },
        0x04 => {
            inc_b(cpu);
            TickResult::Executed
        },
        0x05 => {
            dec_b(cpu);
            TickResult::Executed
        },
        0x06 => {
            ld_b_d8(cpu, memory);
            TickResult::Executed
        },
        0x07 => {
            rlca(cpu);
            TickResult::Executed
        },
        0x08 => {
            ld_a16_sp(cpu, memory);
            TickResult::Executed
        },
        0x09 => {
            add_hl_bc(cpu);
            TickResult::Executed
        },
        0x0A => {
            ld_a_bc(cpu, memory);
            TickResult::Executed
        },
        0x0B => {
            dec_bc(cpu);
            TickResult::Executed
        },
        0x0C => {
            inc_c(cpu);
            TickResult::Executed
        },
        0x0D => {
            dec_c(cpu);
            TickResult::Executed
        },
        0x0E => {
            ld_c_d8(cpu, memory);
            TickResult::Executed
        },
        0x0F => {
            rrca(cpu);
            TickResult::Executed
        },
        0x10 => {
            stop(cpu, memory);
            TickResult::Executed
        },
        0x11 => {
            ld_de_d16(cpu, memory);
            TickResult::Executed
        },
        0x12 => {
            ld_de_a(cpu, memory);
            TickResult::Executed
        },
        0x13 => {
            inc_de(cpu);
            TickResult::Executed
        },
        0x14 => {
            inc_d(cpu);
            TickResult::Executed
        },
        0x15 => {
            dec_d(cpu);
            TickResult::Executed
        },
        0x16 => {
            ld_d_d8(cpu, memory);
            TickResult::Executed
        },
        0x17 => {
            rla(cpu);
            TickResult::Executed
        },
        0x18 => {
            jr_s8(cpu, memory);
            TickResult::Executed
        },
        0x19 => {
            add_hl_de(cpu);
            TickResult::Executed
        },
        0x1A => {
            ld_a_de(cpu, memory);
            TickResult::Executed
        },
        0x1B => {
            dec_de(cpu);
            TickResult::Executed
        },
        0x1C => {
            inc_e(cpu);
            TickResult::Executed
        },
        0x1D => {
            dec_e(cpu);
            TickResult::Executed
        },
        0x1E => {
            ld_e_d8(cpu, memory);
            TickResult::Executed
        },
        0x1F => {
            rra(cpu);
            TickResult::Executed
        },
        0x20 => {
            jr_nz_s8(cpu, memory);
            TickResult::Executed
        },
        0x21 => {
            ld_hl_d16(cpu, memory);
            TickResult::Executed
        },
        0x22 => {
            ld_hl_inc_a(cpu, memory);
            TickResult::Executed
        },
        0x23 => {
            inc_hl(cpu);
            TickResult::Executed
        },
        0x24 => {
            inc_h(cpu);
            TickResult::Executed
        },
        0x25 => {
            dec_h(cpu);
            TickResult::Executed
        },
        0x26 => {
            ld_h_d8(cpu, memory);
            TickResult::Executed
        },
        0x27 => {
            unimplemented_opcode(cpu, 1, 1);
            TickResult::Unimplemented(opcode)
        },
        0x28 => {
            jr_z_s8(cpu, memory);
            TickResult::Executed
        },
        0x29 => {
            add_hl_hl(cpu);
            TickResult::Executed
        },
        0x2A => {
            ld_a_hl_inc(cpu, memory);
            TickResult::Executed
        },
        0x2B => {
            dec_hl(cpu);
            TickResult::Executed
        },
        0x2C => {
            inc_l(cpu);
            TickResult::Executed
        },
        0x2D => {
            dec_l(cpu);
            TickResult::Executed
        },
        0x2E => {
            ld_l_d8(cpu, memory);
            TickResult::Executed
        },
        0x2F => {
            cpl(cpu);
            TickResult::Executed
        },
        0x30 => {
            jr_nc_s8(cpu, memory);
            TickResult::Executed
        },
        0x31 => {
            ld_sp_d16(cpu, memory);
            TickResult::Executed
        },
        0x32 => {
            ld_hl_dec_a(cpu, memory);
            TickResult::Executed
        },
        0x33 => {
            inc_sp(cpu);
            TickResult::Executed
        },
        0x34 => {
            inc_hl_address(cpu, memory);
            TickResult::Executed
        },
        0x35 => {
            dec_hl_address(cpu, memory);
            TickResult::Executed
        },
        0x36 => {
            ld_hl_d8(cpu, memory);
            TickResult::Executed
        },
        0x37 => {
            scf(cpu);
            TickResult::Executed
        },
        0x38 => {
            jr_c_s8(cpu, memory);
            TickResult::Executed
        },
        0x39 => {
            add_hl_sp(cpu);
            TickResult::Executed
        },
        0x3A => {
            ld_a_hl_dec(cpu, memory);
            TickResult::Executed
        },
        0x3B => {
            dec_sp(cpu);
            TickResult::Executed
        },
        0x3C => {
            inc_a(cpu);
            TickResult::Executed
        },
        0x3D => {
            dec_a(cpu);
            TickResult::Executed
        },
        0x3E => {
            ld_a_d8(cpu, memory);
            TickResult::Executed
        },
        0x3F => {
            ccf(cpu);
            TickResult::Executed
        },
        _ => TickResult::DecodeFault(opcode),
    }
}

/// One fetch-decode-execute step for opcodes 0x40 to 0x7F:
/// the 8-bit register-to-register load matrix and `HALT`.
pub open spec fn spec_step_loads(
    opcode: u8,
    pre_cpu: Cpu,
    pre_mem: Seq<u8>,
    post_cpu: Cpu,
    post_mem: Seq<u8>,
    r: TickResult,
) -> bool {
    if opcode == 0x40 {
        &&& post_cpu == spec_ld_r8_post(pre_cpu, Reg8::B, pre_cpu.b, 1, 1)
            &&& post_mem == pre_mem
            &&& r == TickResult::Executed
    } else if opcode == 0x41 {
        &&& post_cpu == spec_ld_r8_post(pre_cpu, Reg8::B, pre_cpu.c, 1, 1)
            &&& post_mem == pre_mem
            &&& r == TickResult::Executed
    } else if opcode == 0x42 {
        &&& post_cpu == spec_ld_r8_post(pre_cpu, Reg8::B, pre_cpu.d, 1, 1)
            &&& post_mem == pre_mem
            &&& r == TickResult::Executed
    } else if opcode == 0x43 {
        &&& post_cpu == spec_ld_r8_post(pre_cpu, Reg8::B, pre_cpu.e, 1, 1)
            &&& post_mem == pre_mem
            &&& r == TickResult::Executed
    } else if opcode == 0x44 {
        &&& post_cpu == spec_ld_r8_post(pre_cpu, Reg8::B, pre_cpu.h, 1, 1)
            &&& post_mem == pre_mem
            &&& r == TickResult::Executed
    } else if opcode == 0x45 {
        &&& post_cpu == spec_ld_r8_post(pre_cpu, Reg8::B, pre_cpu.l, 1, 1)
            &&& post_mem == pre_mem
            &&& r == TickResult::Executed
    } else if opcode == 0x46 {
        &&& post_cpu == spec_ld_r8_post(pre_cpu, Reg8::B, pre_mem[pre_cpu.spec_hl() as int], 1, 2)
            &&& post_mem == pre_mem
            &&& r == TickResult::Executed
    } else if opcode == 0x47 {
        &&& post_cpu == spec_ld_r8_post(pre_cpu, Reg8::B, pre_cpu.a, 1, 1)
            &&& post_mem == pre_mem
            &&& r == TickResult::Executed
    } else if opcode == 0x48 {
        &&& post_cpu == spec_ld_r8_post(pre_cpu, Reg8::C, pre_cpu.b, 1, 1)
            &&& post_mem == pre_mem
            &&& r == TickResult::Executed
    } else if opcode == 0x49 {
        &&& post_cpu == spec_ld_r8_post(pre_cpu, Reg8::C, pre_cpu.c, 1, 1)
            &&& post_mem == pre_mem
            &&& r == TickResult::Executed
    } else if opcode == 0x4A {
        &&& post_cpu == spec_ld_r8_post(pre_cpu, Reg8::C, pre_cpu.d, 1, 1)
            &&& post_mem == pre_mem
            &&& r == TickResult::Executed
    } else if opcode == 0x4B {
        &&& post_cpu == spec_ld_r8_post(pre_cpu, Reg8::C, pre_cpu.e, 1, 1)
            &&& post_mem == pre_mem
            &&& r == TickResult::Executed
    } else if opcode == 0x4C {
        &&& post_cpu == spec_ld_r8_post(pre_cpu, Reg8::C, pre_cpu.h, 1, 1)
            &&& post_mem == pre_mem
            &&& r == TickResult::Executed
    } else if opcode == 0x4D {
        &&& post_cpu == spec_ld_r8_post(pre_cpu, Reg8::C, pre_cpu.l, 1, 1)
            &&& post_mem == pre_mem
            &&& r == TickResult::Executed
    } else if opcode == 0x4E {
        &&& post_cpu == spec_ld_r8_post(pre_cpu, Reg8::C, pre_mem[pre_cpu.spec_hl() as int], 1, 2)
            &&& post_mem == pre_mem
            &&& r == TickResult::Executed
    } else if opcode == 0x4F {
        &&& post_cpu == spec_ld_r8_post(pre_cpu, Reg8::C, pre_cpu.a, 1, 1)
            &&& post_mem == pre_mem
            &&& r == TickResult::Executed
    } else if opcode == 0x50 {
        &&& post_cpu == spec_ld_r8_post(pre_cpu, Reg8::D, pre_cpu.b, 1, 1)
            &&& post_mem == pre_mem
            &&& r == TickResult::Executed
    } else if opcode == 0x51 {
        &&& post_cpu == spec_ld_r8_post(pre_cpu, Reg8::D, pre_cpu.c, 1, 1)
            &&& post_mem == pre_mem
            &&& r == TickResult::Executed
    } else if opcode == 0x52 {
        &&& post_cpu == spec_ld_r8_post(pre_cpu, Reg8::D, pre_cpu.d, 1, 1)
            &&& post_mem == pre_mem
            &&& r == TickResult::Executed
    } else if opcode == 0x53 {
        &&& post_cpu == spec_ld_r8_post(pre_cpu, Reg8::D, pre_cpu.e, 1, 1)
            &&& post_mem == pre_mem
            &&& r == TickResult::Executed
    } else if opcode == 0x54 {
        &&& post_cpu == spec_ld_r8_post(pre_cpu, Reg8::D, pre_cpu.h, 1, 1)
            &&& post_mem == pre_mem
            &&& r == TickResult::Executed
    } else if opcode == 0x55 {
        &&& post_cpu == spec_ld_r8_post(pre_cpu, Reg8::D, pre_cpu.l, 1, 1)
            &&& post_mem == pre_mem
            &&& r == TickResult::Executed
    } else if opcode == 0x56 {
        &&& post_cpu == spec_ld_r8_post(pre_cpu, Reg8::D, pre_mem[pre_cpu.spec_hl() as int], 1, 2)
            &&& post_mem == pre_mem
            &&& r == TickResult::Executed
    } else if opcode == 0x57 {
        &&& post_cpu == spec_ld_r8_post(pre_cpu, Reg8::D, pre_cpu.a, 1, 1)
            &&& post_mem == pre_mem
            &&& r == TickResult::Executed
    } else if opcode == 0x58 {
        &&& post_cpu == spec_ld_r8_post(pre_cpu, Reg8::E, pre_cpu.b, 1, 1)
            &&& post_mem == pre_mem
            &&& r == TickResult::Executed
    } else if opcode == 0x59 {
        &&& post_cpu == spec_ld_r8_post(pre_cpu, Reg8::E, pre_cpu.c, 1, 1)
            &&& post_mem == pre_mem
            &&& r == TickResult::Executed
    } else if opcode == 0x5A {
        &&& post_cpu == spec_ld_r8_post(pre_cpu, Reg8::E, pre_cpu.d, 1, 1)
            &&& post_mem == pre_mem
            &&& r == TickResult::Executed
    } else if opcode == 0x5B {
        &&& post_cpu == spec_ld_r8_post(pre_cpu, Reg8::E, pre_cpu.e, 1, 1)
            &&& post_mem == pre_mem
            &&& r == TickResult::Executed
    } else if opcode == 0x5C {
        &&& post_cpu == spec_ld_r8_post(pre_cpu, Reg8::E, pre_cpu.h, 1, 1)
            &&& post_mem == pre_mem
            &&& r == TickResult::Executed
    } else if opcode == 0x5D {
        &&& post_cpu == spec_ld_r8_post(pre_cpu, Reg8::E, pre_cpu.l, 1, 1)
            &&& post_mem == pre_mem
            &&& r == TickResult::Executed
    } else if opcode == 0x5E {
        &&& post_cpu == spec_ld_r8_post(pre_cpu, Reg8::E, pre_mem[pre_cpu.spec_hl() as int], 1, 2)
            &&& post_mem == pre_mem
            &&& r == TickResult::Executed
    } else if opcode == 0x5F {
        &&& post_cpu == spec_ld_r8_post(pre_cpu, Reg8::E, pre_cpu.a, 1, 1)
            &&& post_mem == pre_mem
            &&& r == TickResult::Executed
    } else if opcode == 0x60 {
        &&& post_cpu == spec_ld_r8_post(pre_cpu, Reg8::H, pre_cpu.b, 1, 1)
            &&& post_mem == pre_mem
            &&& r == TickResult::Executed
    } else if opcode == 0x61 {
        &&& post_cpu == spec_ld_r8_post(pre_cpu, Reg8::H, pre_cpu.c, 1, 1)
            &&& post_mem == pre_mem
            &&& r == TickResult::Executed
    } else if opcode == 0x62 {
        &&& post_cpu == spec_ld_r8_post(pre_cpu, Reg8::H, pre_cpu.d, 1, 1)
            &&& post_mem == pre_mem
            &&& r == TickResult::Executed
    } else if opcode == 0x63 {
        &&& post_cpu == spec_ld_r8_post(pre_cpu, Reg8::H, pre_cpu.e, 1, 1)
            &&& post_mem == pre_mem
            &&& r == TickResult::Executed
    } else if opcode == 0x64 {
        &&& post_cpu == spec_ld_r8_post(pre_cpu, Reg8::H, pre_cpu.h, 1, 1)
            &&& post_mem == pre_mem
            &&& r == TickResult::Executed
    } else if opcode == 0x65 {
        &&& post_cpu == spec_ld_r8_post(pre_cpu, Reg8::H, pre_cpu.l, 1, 1)
            &&& post_mem == pre_mem
            &&& r == TickResult::Executed
    } else if opcode == 0x66 {
        &&& post_cpu == spec_ld_r8_post(pre_cpu, Reg8::H, pre_mem[pre_cpu.spec_hl() as int], 1, 2)
            &&& post_mem == pre_mem
            &&& r == TickResult::Executed
    } else if opcode == 0x67 {
        &&& post_cpu == spec_ld_r8_post(pre_cpu, Reg8::H, pre_cpu.a, 1, 1)
            &&& post_mem == pre_mem
            &&& r == TickResult::Executed
    } else if opcode == 0x68 {
        &&& post_cpu == spec_ld_r8_post(pre_cpu, Reg8::L, pre_cpu.b, 1, 1)
            &&& post_mem == pre_mem
            &&& r == TickResult::Executed
    } else if opcode == 0x69 {
        &&& post_cpu == spec_ld_r8_post(pre_cpu, Reg8::L, pre_cpu.c, 1, 1)
            &&& post_mem == pre_mem
            &&& r == TickResult::Executed
    } else if opcode == 0x6A {
        &&& post_cpu == spec_ld_r8_post(pre_cpu, Reg8::L, pre_cpu.d, 1, 1)
            &&& post_mem == pre_mem
            &&& r == TickResult::Executed
    } else if opcode == 0x6B {
        &&& post_cpu == spec_ld_r8_post(pre_cpu, Reg8::L, pre_cpu.e, 1, 1)
            &&& post_mem == pre_mem
            &&& r == TickResult::Executed
    } else if opcode == 0x6C {
        &&& post_cpu == spec_ld_r8_post(pre_cpu, Reg8::L, pre_cpu.h, 1, 1)
            &&& post_mem == pre_mem
            &&& r == TickResult::Executed
    } else if opcode == 0x6D {
        &&& post_cpu == spec_ld_r8_post(pre_cpu, Reg8::L, pre_cpu.l, 1, 1)
            &&& post_mem == pre_mem
            &&& r == TickResult::Executed
    } else if opcode == 0x6E {
        &&& post_cpu == spec_ld_r8_post(pre_cpu, Reg8::L, pre_mem[pre_cpu.spec_hl() as int], 1, 2)
            &&& post_mem == pre_mem
            &&& r == TickResult::Executed
    } else if opcode == 0x6F {
        &&& post_cpu == spec_ld_r8_post(pre_cpu, Reg8::L, pre_cpu.a, 1, 1)
            &&& post_mem == pre_mem
            &&& r == TickResult::Executed
    } else if opcode == 0x70 {
        &&& post_cpu == spec_advance(pre_cpu, 1, 2)
            &&& post_mem == pre_mem.update(pre_cpu.spec_hl() as int, pre_cpu.b)
            &&& r == TickResult::Executed
    } else if opcode == 0x71 {
        &&& post_cpu == spec_advance(pre_cpu, 1, 2)
            &&& post_mem == pre_mem.update(pre_cpu.spec_hl() as int, pre_cpu.c)
            &&& r == TickResult::Executed
    } else if opcode == 0x72 {
        &&& post_cpu == spec_advance(pre_cpu, 1, 2)
            &&& post_mem == pre_mem.update(pre_cpu.spec_hl() as int, pre_cpu.d)
            &&& r == TickResult::Executed
    } else if opcode == 0x73 {
        &&& post_cpu == spec_advance(pre_cpu, 1, 2)
            &&& post_mem == pre_mem.update(pre_cpu.spec_hl() as int, pre_cpu.e)
            &&& r == TickResult::Executed
    } else if opcode == 0x74 {
        &&& post_cpu == spec_advance(pre_cpu, 1, 2)
            &&& post_mem == pre_mem.update(pre_cpu.spec_hl() as int, pre_cpu.h)
            &&& r == TickResult::Executed
    } else if opcode == 0x75 {
        &&& post_cpu == spec_advance(pre_cpu, 1, 2)
            &&& post_mem == pre_mem.update(pre_cpu.spec_hl() as int, pre_cpu.l)
            &&& r == TickResult::Executed
    } else if opcode == 0x76 {
        &&& post_cpu == spec_halt_post(pre_cpu)
            &&& post_mem == pre_mem
            &&& r == TickResult::Executed
    } else if opcode == 0x77 {
        &&& post_cpu == spec_advance(pre_cpu, 1, 2)
            &&& post_mem == pre_mem.update(pre_cpu.spec_hl() as int, pre_cpu.a)
            &&& r == TickResult::Executed
    } else if opcode == 0x78 {
        &&& post_cpu == spec_ld_r8_post(pre_cpu, Reg8::A, pre_cpu.b, 1, 1)
            &&& post_mem == pre_mem
            &&& r == TickResult::Executed
    } else if opcode == 0x79 {
        &&& post_cpu == spec_ld_r8_post(pre_cpu, Reg8::A, pre_cpu.c, 1, 1)
            &&& post_mem == pre_mem
            &&& r == TickResult::Executed
    } else if opcode == 0x7A {
        &&& post_cpu == spec_ld_r8_post(pre_cpu, Reg8::A, pre_cpu.d, 1, 1)
            &&& post_mem == pre_mem
            &&& r == TickResult::Executed
    } else if opcode == 0x7B {
        &&& post_cpu == spec_ld_r8_post(pre_cpu, Reg8::A, pre_cpu.e, 1, 1)
            &&& post_mem == pre_mem
            &&& r == TickResult::Executed
    } else if opcode == 0x7C {
        &&& post_cpu == spec_ld_r8_post(pre_cpu, Reg8::A, pre_cpu.h, 1, 1)
            &&& post_mem == pre_mem
            &&& r == TickResult::Executed
    } else if opcode == 0x7D {
        &&& post_cpu == spec_ld_r8_post(pre_cpu, Reg8::A, pre_cpu.l, 1, 1)
            &&& post_mem == pre_mem
            &&& r == TickResult::Executed
    } else if opcode == 0x7E {
        &&& post_cpu == spec_ld_r8_post(pre_cpu, Reg8::A, pre_mem[pre_cpu.spec_hl() as int], 1, 2)
            &&& post_mem == pre_mem
            &&& r == TickResult::Executed
    } else if opcode == 0x7F {
        &&& post_cpu == spec_ld_r8_post(pre_cpu, Reg8::A, pre_cpu.a, 1, 1)
            &&& post_mem == pre_mem
            &&& r == TickResult::Executed
    } else {
        &&& post_cpu == pre_cpu
        &&& post_mem == pre_mem
        &&& r == TickResult::DecodeFault(opcode)
    }
}

/// Dispatch one opcode in the range 0x40 to 0x7F:
/// the 8-bit register-to-register load matrix and `HALT`.
pub fn dispatch_loads(cpu: &mut Cpu, memory: &mut Memory, opcode: u8) -> (r: TickResult)
    requires
        old(memory).wf(),
        0x40 <= opcode < 0x80,
        opcode == old(memory)@[old(cpu).program_counter as int],
    ensures
        final(memory).wf(),
        spec_step_loads(opcode, *old(cpu), old(memory)@, *final(cpu), final(memory)@, r),
{
    match opcode {
        0x40 => {
            ld_b_b(cpu);
            TickResult::Executed
        },
        0x41 => {
            ld_b_c(cpu);
            TickResult::Executed
        },
        0x42 => {
            ld_b_d(cpu);
            TickResult::Executed
        },
        0x43 => {
            ld_b_e(cpu);
            TickResult::Executed
        },
        0x44 => {
            ld_b_h(cpu);
            TickResult::Executed
        },
        0x45 => {
            ld_b_l(cpu);
            TickResult::Executed
        },
        0x46 => {
            ld_b_hl(cpu, memory);
            TickResult::Executed
        },
        0x47 => {
            ld_b_a(cpu);
            TickResult::Executed
        },
        0x48 => {
            ld_c_b(cpu);
            TickResult::Executed
        },
        0x49 => {
            ld_c_c(cpu);
            TickResult::Executed
        },
        0x4A => {
            ld_c_d(cpu);
            TickResult::Executed
        },
        0x4B => {
            ld_c_e(cpu);
            TickResult::Executed
        },
        0x4C => {
            ld_c_h(cpu);
            TickResult::Executed
        },
        0x4D => {
            ld_c_l(cpu);
            TickResult::Executed
        },
        0x4E => {
            ld_c_hl(cpu, memory);
            TickResult::Executed
        },
        0x4F => {
            ld_c_a(cpu);
            TickResult::Executed
        },
        0x50 => {
            ld_d_b(cpu);
            TickResult::Executed
        },
        0x51 => {
            ld_d_c(cpu);
            TickResult::Executed
        },
        0x52 => {
            ld_d_d(cpu);
            TickResult::Executed
        },
        0x53 => {
            ld_d_e(cpu);
            TickResult::Executed
        },
        0x54 => {
            ld_d_h(cpu);
            TickResult::Executed
        },
        0x55 => {
            ld_d_l(cpu);
            TickResult::Executed
        },
        0x56 => {
            ld_d_hl(cpu, memory);
            TickResult::Executed
        },
        0x57 => {
            ld_d_a(cpu);
            TickResult::Executed
        },
        0x58 => {
            ld_e_b(cpu);
            TickResult::Executed
        },
        0x59 => {
            ld_e_c(cpu);
            TickResult::Executed
        },
        0x5A => {
            ld_e_d(cpu);
            TickResult::Executed
        },
        0x5B => {
            ld_e_e(cpu);
            TickResult::Executed
        },
        0x5C => {
            ld_e_h(cpu);
            TickResult::Executed
        },
        0x5D => {
            ld_e_l(cpu);
            TickResult::Executed
        },
        0x5E => {
            ld_e_hl(cpu, memory);
            TickResult::Executed
        },
        0x5F => {
            ld_e_a(cpu);
            TickResult::Executed
        },
        0x60 => {
            ld_h_b(cpu);
            TickResult::Executed
        },
        0x61 => {
            ld_h_c(cpu);
            TickResult::Executed
        },
        0x62 => {
            ld_h_d(cpu);
            TickResult::Executed
        },
        0x63 => {
            ld_h_e(cpu);
            TickResult::Executed
        },
        0x64 => {
            ld_h_h(cpu);
            TickResult::Executed
        },
        0x65 => {
            ld_h_l(cpu);
            TickResult::Executed
        },
        0x66 => {
            ld_h_hl(cpu, memory);
            TickResult::Executed
        },
        0x67 => {
            ld_h_a(cpu);
            TickResult::Executed
        },
        0x68 => {
            ld_l_b(cpu);
            TickResult::Executed
        },
        0x69 => {
            ld_l_c(cpu);
            TickResult::Executed
        },
        0x6A => {
            ld_l_d(cpu);
            TickResult::Executed
        },
        0x6B => {
            ld_l_e(cpu);
            TickResult::Executed
        },
        0x6C => {
            ld_l_h(cpu);
            TickResult::Executed
        },
        0x6D => {
            ld_l_l(cpu);
            TickResult::Executed
        },
        0x6E => {
            ld_l_hl(cpu, memory);
            TickResult::Executed
        },
        0x6F => {
            ld_l_a(cpu);
            TickResult::Executed
        },
        0x70 => {
            ld_hl_b(cpu, memory);
            TickResult::Executed
        },
        0x71 => {
            ld_hl_c(cpu, memory);
            TickResult::Executed
        },
        0x72 => {
            ld_hl_d(cpu, memory);
            TickResult::Executed
        },
        0x73 => {
            ld_hl_e(cpu, memory);
            TickResult::Executed
        },
        0x74 => {
            ld_hl_h(cpu, memory);
            TickResult::Executed
        },
        0x75 => {
            ld_hl_l(cpu, memory);
            TickResult::Executed
        },
        0x76 => {
            halt(cpu);
            TickResult::Executed
        },
        0x77 => {
            ld_hl_a(cpu, memory);
            TickResult::Executed
        },
        0x78 => {
            ld_a_b(cpu);
            TickResult::Executed
        },
        0x79 => {
            ld_a_c(cpu);
            TickResult::Executed
        },
        0x7A => {
            ld_a_d(cpu);
            TickResult::Executed
        },
        0x7B => {
            ld_a_e(cpu);
            TickResult::Executed
        },
        0x7C => {
            ld_a_h(cpu);
            TickResult::Executed
        },
        0x7D => {
            ld_a_l(cpu);
            TickResult::Executed
        },
        0x7E => {
            ld_a_hl(cpu, memory);
            TickResult::Executed
        },
        0x7F => {
            ld_a_a(cpu);
            TickResult::Executed
        },
        _ => TickResult::DecodeFault(opcode),
    }
}

/// One fetch-decode-execute step for opcodes 0x80 to 0xBF:
/// the 8-bit arithmetic and logic instructions.
pub open spec fn spec_step_alu(
    opcode: u8,
    pre_cpu: Cpu,
    pre_mem: Seq<u8>,
    post_cpu: Cpu,
    post_mem: Seq<u8>,
    r: TickResult,
) -> bool {
    if opcode == 0x80 {
        &&& post_cpu == spec_add_a_post(pre_cpu, pre_cpu.b, 1, 1)
            &&& post_mem == pre_mem
            &&& r == TickResult::Executed
    } else if opcode == 0x81 {
        &&& post_cpu == spec_add_a_post(pre_cpu, pre_cpu.c, 1, 1)
            &&& post_mem == pre_mem
            &&& r == TickResult::Executed
    } else if opcode == 0x82 {
        &&& post_cpu == spec_add_a_post(pre_cpu, pre_cpu.d, 1, 1)
            &&& post_mem == pre_mem
            &&& r == TickResult::Executed
    } else if opcode == 0x83 {
        &&& post_cpu == spec_add_a_post(pre_cpu, pre_cpu.e, 1, 1)
            &&& post_mem == pre_mem
            &&& r == TickResult::Executed
    } else if opcode == 0x84 {
        &&& post_cpu == spec_add_a_post(pre_cpu, pre_cpu.h, 1, 1)
            &&& post_mem == pre_mem
            &&& r == TickResult::Executed
    } else if opcode == 0x85 {
        &&& post_cpu == spec_add_a_post(pre_cpu, pre_cpu.l, 1, 1)
            &&& post_mem == pre_mem
            &&& r == TickResult::Executed
    } else if opcode == 0x86 {
        &&& post_cpu == spec_add_a_post(pre_cpu, pre_mem[pre_cpu.spec_hl() as int], 1, 2)
            &&& post_mem == pre_mem
            &&& r == TickResult::Executed
    } else if opcode == 0x87 {
        &&& post_cpu == spec_add_a_post(pre_cpu, pre_cpu.a, 1, 1)
            &&& post_mem == pre_mem
            &&& r == TickResult::Executed
    } else if opcode == 0x88 {
        &&& post_cpu == spec_advance(pre_cpu, 1, 1)
            &&& post_mem == pre_mem
            &&& r == TickResult::Unimplemented(opcode)
    } else if opcode == 0x89 {
        &&& post_cpu == spec_advance(pre_cpu, 1, 1)
            &&& post_mem == pre_mem
            &&& r == TickResult::Unimplemented(opcode)
    } else if opcode == 0x8A {
        &&& post_cpu == spec_advance(pre_cpu, 1, 1)
            &&& post_mem == pre_mem
            &&& r == TickResult::Unimplemented(opcode)
    } else if opcode == 0x8B {
        &&& post_cpu == spec_advance(pre_cpu, 1, 1)
            &&& post_mem == pre_mem
            &&& r == TickResult::Unimplemented(opcode)
    } else if opcode == 0x8C {
        &&& post_cpu == spec_advance(pre_cpu, 1, 1)
            &&& post_mem == pre_mem
            &&& r == TickResult::Unimplemented(opcode)
    } else if opcode == 0x8D {
        &&& post_cpu == spec_advance(pre_cpu, 1, 1)
            &&& post_mem == pre_mem
            &&& r == TickResult::Unimplemented(opcode)
    } else if opcode == 0x8E {
        &&& post_cpu == spec_advance(pre_cpu, 1, 1)
            &&& post_mem == pre_mem
            &&& r == TickResult::Unimplemented(opcode)
    } else if opcode == 0x8F {
        &&& post_cpu == spec_advance(pre_cpu, 1, 1)
            &&& post_mem == pre_mem
            &&& r == TickResult::Unimplemented(opcode)
    } else if opcode == 0x90 {
        &&& post_cpu == spec_sub_a_post(pre_cpu, pre_cpu.b, 1, 1)
            &&& post_mem == pre_mem
            &&& r == TickResult::Executed
    } else if opcode == 0x91 {
        &&& post_cpu == spec_sub_a_post(pre_cpu, pre_cpu.c, 1, 1)
            &&& post_mem == pre_mem
            &&& r == TickResult::Executed
    } else if opcode == 0x92 {
        &&& post_cpu == spec_sub_a_post(pre_cpu, pre_cpu.d, 1, 1)
            &&& post_mem == pre_mem
            &&& r == TickResult::Executed
    } else if opcode == 0x93 {
        &&& post_cpu == spec_sub_a_post(pre_cpu, pre_cpu.e, 1, 1)
            &&& post_mem == pre_mem
            &&& r == TickResult::Executed
    } else if opcode == 0x94 {
        &&& post_cpu == spec_sub_a_post(pre_cpu, pre_cpu.h, 1, 1)
            &&& post_mem == pre_mem
            &&& r == TickResult::Executed
    } else if opcode == 0x95 {
        &&& post_cpu == spec_sub_a_post(pre_cpu, pre_cpu.l, 1, 1)
            &&& post_mem == pre_mem
            &&& r == TickResult::Executed
    } else if opcode == 0x96 {
        &&& post_cpu == spec_sub_a_post(pre_cpu, pre_mem[pre_cpu.spec_hl() as int], 1, 2)
            &&& post_mem == pre_mem
            &&& r == TickResult::Executed
    } else if opcode == 0x97 {
        &&& post_cpu == spec_sub_a_post(pre_cpu, pre_cpu.a, 1, 1)
            &&& post_mem == pre_mem
            &&& r == TickResult::Executed
    } else if opcode == 0x98 {
        &&& post_cpu == spec_advance(pre_cpu, 1, 1)
            &&& post_mem == pre_mem
            &&& r == TickResult::Unimplemented(opcode)
    } else if opcode == 0x99 {
        &&& post_cpu == spec_advance(pre_cpu, 1, 1)
            &&& post_mem == pre_mem
            &&& r == TickResult::Unimplemented(opcode)
    } else if opcode == 0x9A {
        &&& post_cpu == spec_advance(pre_cpu, 1, 1)
            &&& post_mem == pre_mem
            &&& r == TickResult::Unimplemented(opcode)
    } else if opcode == 0x9B {
        &&& post_cpu == spec_advance(pre_cpu, 1, 1)
            &&& post_mem == pre_mem
            &&& r == TickResult::Unimplemented(opcode)
    } else if opcode == 0x9C {
        &&& post_cpu == spec_advance(pre_cpu, 1, 1)
            &&& post_mem == pre_mem
            &&& r == TickResult::Unimplemented(opcode)
    } else if opcode == 0x9D {
        &&& post_cpu == spec_advance(pre_cpu, 1, 1)
            &&& post_mem == pre_mem
            &&& r == TickResult::Unimplemented(opcode)
    } else if opcode == 0x9E {
        &&& post_cpu == spec_advance(pre_cpu, 1, 1)
            &&& post_mem == pre_mem
            &&& r == TickResult::Unimplemented(opcode)
    } else if opcode == 0x9F {
        &&& post_cpu == spec_advance(pre_cpu, 1, 1)
            &&& post_mem == pre_mem
            &&& r == TickResult::Unimplemented(opcode)
    } else if opcode == 0xA0 {
        &&& post_cpu == spec_and_a_post(pre_cpu, pre_cpu.b, 1, 1)
            &&& post_mem == pre_mem
            &&& r == TickResult::Executed
    } else if opcode == 0xA1 {
        &&& post_cpu == spec_and_a_post(pre_cpu, pre_cpu.c, 1, 1)
            &&& post_mem == pre_mem
            &&& r == TickResult::Executed
    } else if opcode == 0xA2 {
        &&& post_cpu == spec_and_a_post(pre_cpu, pre_cpu.d, 1, 1)
            &&& post_mem == pre_mem
            &&& r == TickResult::Executed
    } else if opcode == 0xA3 {
        &&& post_cpu == spec_and_a_post(pre_cpu, pre_cpu.e, 1, 1)
            &&& post_mem == pre_mem
            &&& r == TickResult::Executed
    } else if opcode == 0xA4 {
        &&& post_cpu == spec_and_a_post(pre_cpu, pre_cpu.h, 1, 1)
            &&& post_mem == pre_mem
            &&& r == TickResult::Executed
    } else if opcode == 0xA5 {
        &&& post_cpu == spec_and_a_post(pre_cpu, pre_cpu.l, 1, 1)
            &&& post_mem == pre_mem
            &&& r == TickResult::Executed
    } else if opcode == 0xA6 {
        &&& post_cpu == spec_and_a_post(pre_cpu, pre_mem[pre_cpu.spec_hl() as int], 1, 2)
            &&& post_mem == pre_mem
            &&& r == TickResult::Executed
    } else if opcode == 0xA7 {
        &&& post_cpu == spec_and_a_post(pre_cpu, pre_cpu.a, 1, 1)
            &&& post_mem == pre_mem
            &&& r == TickResult::Executed
    } else if opcode == 0xA8 {
        &&& post_cpu == spec_xor_a_post(pre_cpu, pre_cpu.b, 1, 1)
            &&& post_mem == pre_mem
            &&& r == TickResult::Executed
    } else if opcode == 0xA9 {
        &&& post_cpu == spec_xor_a_post(pre_cpu, pre_cpu.c, 1, 1)
            &&& post_mem == pre_mem
            &&& r == TickResult::Executed
    } else if opcode == 0xAA {
        &&& post_cpu == spec_xor_a_post(pre_cpu, pre_cpu.d, 1, 1)
            &&& post_mem == pre_mem
            &&& r == TickResult::Executed
    } else if opcode == 0xAB {
        &&& post_cpu == spec_xor_a_post(pre_cpu, pre_cpu.e, 1, 1)
            &&& post_mem == pre_mem
            &&& r == TickResult::Executed
    } else if opcode == 0xAC {
        &&& post_cpu == spec_xor_a_post(pre_cpu, pre_cpu.h, 1, 1)
            &&& post_mem == pre_mem
            &&& r == TickResult::Executed
    } else if opcode == 0xAD {
        &&& post_cpu == spec_xor_a_post(pre_cpu, pre_cpu.l, 1, 1)
            &&& post_mem == pre_mem
            &&& r == TickResult::Executed
    } else if opcode == 0xAE {
        &&& post_cpu == spec_xor_a_post(pre_cpu, pre_mem[pre_cpu.spec_hl() as int], 1, 2)
            &&& post_mem == pre_mem
            &&& r == TickResult::Executed
    } else if opcode == 0xAF {
        &&& post_cpu == spec_xor_a_post(pre_cpu, pre_cpu.a, 1, 1)
            &&& post_mem == pre_mem
            &&& r == TickResult::Executed
    } else if opcode == 0xB0 {
        &&& post_cpu == spec_or_a_post(pre_cpu, pre_cpu.b, 1, 1)
            &&& post_mem == pre_mem
            &&& r == TickResult::Executed
    } else if opcode == 0xB1 {
        &&& post_cpu == spec_or_a_post(pre_cpu, pre_cpu.c, 1, 1)
            &&& post_mem == pre_mem
            &&& r == TickResult::Executed
    } else if opcode == 0xB2 {
        &&& post_cpu == spec_or_a_post(pre_cpu, pre_cpu.d, 1, 1)
            &&& post_mem == pre_mem
            &&& r == TickResult::Executed
    } else if opcode == 0xB3 {
        &&& post_cpu == spec_or_a_post(pre_cpu, pre_cpu.e, 1, 1)
            &&& post_mem == pre_mem
            &&& r == TickResult::Executed
    } else if opcode == 0xB4 {
        &&& post_cpu == spec_or_a_post(pre_cpu, pre_cpu.h, 1, 1)
            &&& post_mem == pre_mem
            &&& r == TickResult::Executed
    } else if opcode == 0xB5 {
        &&& post_cpu == spec_or_a_post(pre_cpu, pre_cpu.l, 1, 1)
            &&& post_mem == pre_mem
            &&& r == TickResult::Executed
    } else if opcode == 0xB6 {
        &&& post_cpu == spec_or_a_post(pre_cpu, pre_mem[pre_cpu.spec_hl() as int], 1, 2)
            &&& post_mem == pre_mem
            &&& r == TickResult::Executed
    } else if opcode == 0xB7 {
        &&& post_cpu == spec_or_a_post(pre_cpu, pre_cpu.a, 1, 1)
            &&& post_mem == pre_mem
            &&& r == TickResult::Executed
    } else if opcode == 0xB8 {
        &&& post_cpu == spec_cp_a_post(pre_cpu, pre_cpu.b, 1, 1)
            &&& post_mem == pre_mem
            &&& r == TickResult::Executed
    } else if opcode == 0xB9 {
        &&& post_cpu == spec_cp_a_post(pre_cpu, pre_cpu.c, 1, 1)
            &&& post_mem == pre_mem
            &&& r == TickResult::Executed
    } else if opcode == 0xBA {
        &&& post_cpu == spec_cp_a_post(pre_cpu, pre_cpu.d, 1, 1)
            &&& post_mem == pre_mem
            &&& r == TickResult::Executed
    } else if opcode == 0xBB {
        &&& post_cpu == spec_cp_a_post(pre_cpu, pre_cpu.e, 1, 1)
            &&& post_mem == pre_mem
            &&& r == TickResult::Executed
    } else if opcode == 0xBC {
        &&& post_cpu == spec_cp_a_post(pre_cpu, pre_cpu.h, 1, 1)
            &&& post_mem == pre_mem
            &&& r == TickResult::Executed
    } else if opcode == 0xBD {
        &&& post_cpu == spec_cp_a_post(pre_cpu, pre_cpu.l, 1, 1)
            &&& post_mem == pre_mem
            &&& r == TickResult::Executed
    } else if opcode == 0xBE {
        &&& post_cpu == spec_cp_a_post(pre_cpu, pre_mem[pre_cpu.spec_hl() as int], 1, 2)
            &&& post_mem == pre_mem
            &&& r == TickResult::Executed
    } else if opcode == 0xBF {
        &&& post_cpu == spec_cp_a_post(pre_cpu, pre_cpu.a, 1, 1)
            &&& post_mem == pre_mem
            &&& r == TickResult::Executed
    } else {
        &&& post_cpu == pre_cpu
        &&& post_mem == pre_mem
        &&& r == TickResult::DecodeFault(opcode)
    }
}

/// Dispatch one opcode in the range 0x80 to 0xBF:
/// the 8-bit arithmetic and logic instructions.
pub fn dispatch_alu(cpu: &mut Cpu, memory: &mut Memory, opcode: u8) -> (r: TickResult)
    requires
        old(memory).wf(),
        0x80 <= opcode < 0xC0,
        opcode == old(memory)@[old(cpu).program_counter as int],
    ensures
        final(memory).wf(),
        spec_step_alu(opcode, *old(cpu), old(memory)@, *final(cpu), final(memory)@, r),
{
    match opcode {
        0x80 => {
            add_a_b(cpu);
            TickResult::Executed
        },
        0x81 => {
            add_a_c(cpu);
            TickResult::Executed
        },
        0x82 => {
            add_a_d(cpu);
            TickResult::Executed
        },
        0x83 => {
            add_a_e(cpu);
            TickResult::Executed
        },
        0x84 => {
            add_a_h(cpu);
            TickResult::Executed
        },
        0x85 => {
            add_a_l(cpu);
            TickResult::Executed
        },
        0x86 => {
            add_a_hl(cpu, memory);
            TickResult::Executed
        },
        0x87 => {
            add_a_a(cpu);
            TickResult::Executed
        },
        0x88 => {
            unimplemented_opcode(cpu, 1, 1);
            TickResult::Unimplemented(opcode)
        },
        0x89 => {
            unimplemented_opcode(cpu, 1, 1);
            TickResult::Unimplemented(opcode)
        },
        0x8A => {
            unimplemented_opcode(cpu, 1, 1);
            TickResult::Unimplemented(opcode)
        },
        0x8B => {
            unimplemented_opcode(cpu, 1, 1);
            TickResult::Unimplemented(opcode)
        },
        0x8C => {
            unimplemented_opcode(cpu, 1, 1);
            TickResult::Unimplemented(opcode)
        },
        0x8D => {
            unimplemented_opcode(cpu, 1, 1);
            TickResult::Unimplemented(opcode)
        },
        0x8E => {
            unimplemented_opcode(cpu, 1, 1);
            TickResult::Unimplemented(opcode)
        },
        0x8F => {
            unimplemented_opcode(cpu, 1, 1);
            TickResult::Unimplemented(opcode)
        },
        0x90 => {
            sub_b(cpu);
            TickResult::Executed
        },
        0x91 => {
            sub_c(cpu);
            TickResult::Executed
        },
        0x92 => {
            sub_d(cpu);
            TickResult::Executed
        },
        0x93 => {
            sub_e(cpu);
            TickResult::Executed
        },
        0x94 => {
            sub_h(cpu);
            TickResult::Executed
        },
        0x95 => {
            sub_l(cpu);
            TickResult::Executed
        },
        0x96 => {
            sub_hl(cpu, memory);
            TickResult::Executed
        },
        0x97 => {
            sub_a(cpu);
            TickResult::Executed
        },
        0x98 => {
            unimplemented_opcode(cpu, 1, 1);
            TickResult::Unimplemented(opcode)
        },
        0x99 => {
            unimplemented_opcode(cpu, 1, 1);
            TickResult::Unimplemented(opcode)
        },
        0x9A => {
            unimplemented_opcode(cpu, 1, 1);
            TickResult::Unimplemented(opcode)
        },
        0x9B => {
            unimplemented_opcode(cpu, 1, 1);
            TickResult::Unimplemented(opcode)
        },
        0x9C => {
            unimplemented_opcode(cpu, 1, 1);
            TickResult::Unimplemented(opcode)
        },
        0x9D => {
            unimplemented_opcode(cpu, 1, 1);
            TickResult::Unimplemented(opcode)
        },
        0x9E => {
            unimplemented_opcode(cpu, 1, 1);
            TickResult::Unimplemented(opcode)
        },
        0x9F => {
            unimplemented_opcode(cpu, 1, 1);
            TickResult::Unimplemented(opcode)
        },
        0xA0 => {
            and_b(cpu);
            TickResult::Executed
        },
        0xA1 => {
            and_c(cpu);
            TickResult::Executed
        },
        0xA2 => {
            and_d(cpu);
            TickResult::Executed
        },
        0xA3 => {
            and_e(cpu);
            TickResult::Executed
        },
        0xA4 => {
            and_h(cpu);
            TickResult::Executed
        },
        0xA5 => {
            and_l(cpu);
            TickResult::Executed
        },
        0xA6 => {
            and_hl(cpu, memory);
            TickResult::Executed
        },
        0xA7 => {
            and_a(cpu);
            TickResult::Executed
        },
        0xA8 => {
            xor_b(cpu);
            TickResult::Executed
        },
        0xA9 => {
            xor_c(cpu);
            TickResult::Executed
        },
        0xAA => {
            xor_d(cpu);
            TickResult::Executed
        },
        0xAB => {
            xor_e(cpu);
            TickResult::Executed
        },
        0xAC => {
            xor_h(cpu);
            TickResult::Executed
        },
        0xAD => {
            xor_l(cpu);
            TickResult::Executed
        },
        0xAE => {
            xor_hl(cpu, memory);
            TickResult::Executed
        },
        0xAF => {
            xor_a(cpu);
            TickResult::Executed
        },
        0xB0 => {
            or_b(cpu);
            TickResult::Executed
        },
        0xB1 => {
            or_c(cpu);
            TickResult::Executed
        },
        0xB2 => {
            or_d(cpu);
            TickResult::Executed
        },
        0xB3 => {
            or_e(cpu);
            TickResult::Executed
        },
        0xB4 => {
            or_h(cpu);
            TickResult::Executed
        },
        0xB5 => {
            or_l(cpu);
            TickResult::Executed
        },
        0xB6 => {
            or_hl(cpu, memory);
            TickResult::Executed
        },
        0xB7 => {
            or_a(cpu);
            TickResult::Executed
        },
        0xB8 => {
            cp_b(cpu);
            TickResult::Executed
        },
        0xB9 => {
            cp_c(cpu);
            TickResult::Executed
        },
        0xBA => {
            cp_d(cpu);
            TickResult::Executed
        },
        0xBB => {
            cp_e(cpu);
            TickResult::Executed
        },
        0xBC => {
            cp_h(cpu);
            TickResult::Executed
        },
        0xBD => {
            cp_l(cpu);
            TickResult::Executed
        },
        0xBE => {
            cp_hl(cpu, memory);
            TickResult::Executed
        },
        0xBF => {
            cp_a(cpu);
            TickResult::Executed
        },
        _ => TickResult::DecodeFault(opcode),
    }
}

/// One fetch-decode-execute step for opcodes 0xC0 to 0xFF:
/// the jumps, calls, returns, stack and interrupt instructions,
/// the immediate-operand arithmetic, and the high-page loads.
pub open spec fn spec_step_control(
    opcode: u8,
    pre_cpu: Cpu,
    pre_mem: Seq<u8>,
    post_cpu: Cpu,
    post_mem: Seq<u8>,
    r: TickResult,
) -> bool {
    if opcode == 0xC0 {
        &&& post_cpu == (if !pre_cpu.zero {
        spec_ret_post(pre_cpu, pre_mem, 5)
    } else {
        spec_advance(pre_cpu, 1, 2)
    })
            &&& post_mem == pre_mem
            &&& r == TickResult::Executed
    } else if opcode == 0xC1 {
        &&& post_cpu == spec_pop_r16_post(pre_cpu, pre_mem, Reg16::BC)
            &&& post_mem == pre_mem
            &&& r == TickResult::Executed
    } else if opcode == 0xC2 {
        &&& post_cpu == spec_jp_post(pre_cpu, spec_imm16(pre_mem, pre_cpu.program_counter), !pre_cpu.zero)
            &&& post_mem == pre_mem
            &&& r == TickResult::Executed
    } else if opcode == 0xC3 {
        &&& post_cpu == spec_jp_post(pre_cpu, spec_imm16(pre_mem, pre_cpu.program_counter), true)
            &&& post_mem == pre_mem
            &&& r == TickResult::Executed
    } else if opcode == 0xC4 {
        &&& post_cpu == spec_call_post(pre_cpu, spec_imm16(pre_mem, pre_cpu.program_counter), !pre_cpu.zero)
            &&& post_mem == (if !pre_cpu.zero {
                stack_push16(pre_mem, pre_cpu.stack_pointer, wrap_add_u16(pre_cpu.program_counter, 3))
            } else {
                pre_mem
            })
            &&& r == TickResult::Executed
    } else if opcode == 0xC5 {
        &&& post_cpu == spec_push_r16_post(pre_cpu)
            &&& post_mem == stack_push16(pre_mem, pre_cpu.stack_pointer, pre_cpu.spec_bc())
            &&& r == TickResult::Executed
    } else if opcode == 0xC6 {
        &&& post_cpu == spec_add_a_post(pre_cpu, spec_imm8(pre_mem, pre_cpu.program_counter), 2, 2)
            &&& post_mem == pre_mem
            &&& r == TickResult::Executed
    } else if opcode == 0xC7 {
        &&& post_cpu == spec_advance(pre_cpu, 1, 4)
            &&& post_mem == pre_mem
            &&& r == TickResult::Unimplemented(opcode)
    } else if opcode == 0xC8 {
        &&& post_cpu == (if pre_cpu.zero {
        spec_ret_post(pre_cpu, pre_mem, 5)
    } else {
        spec_advance(pre_cpu, 1, 2)
    })
            &&& post_mem == pre_mem
            &&& r == TickResult::Executed
    } else if opcode == 0xC9 {
        &&& post_cpu == spec_ret_post(pre_cpu, pre_mem, 4)
            &&& post_mem == pre_mem
            &&& r == TickResult::Executed
    } else if opcode == 0xCA {
        &&& post_cpu == spec_jp_post(pre_cpu, spec_imm16(pre_mem, pre_cpu.program_counter), pre_cpu.zero)
            &&& post_mem == pre_mem
            &&& r == TickResult::Executed
    } else if opcode == 0xCB {
        &&& post_cpu == spec_advance(pre_cpu, 2, 2)
            &&& post_mem == pre_mem
            &&& r == TickResult::Unimplemented(spec_imm8(pre_mem, pre_cpu.program_counter))
    } else if opcode == 0xCC {
        &&& post_cpu == spec_call_post(pre_cpu, spec_imm16(pre_mem, pre_cpu.program_counter), pre_cpu.zero)
            &&& post_mem == (if pre_cpu.zero {
                stack_push16(pre_mem, pre_cpu.stack_pointer, wrap_add_u16(pre_cpu.program_counter, 3))
            } else {
                pre_mem
            })
            &&& r == TickResult::Executed
    } else if opcode == 0xCD {
        &&& post_cpu == spec_call_post(pre_cpu, spec_imm16(pre_mem, pre_cpu.program_counter), true)
            &&& post_mem == stack_push16(pre_mem, pre_cpu.stack_pointer, wrap_add_u16(pre_cpu.program_counter, 3))
            &&& r == TickResult::Executed
    } else if opcode == 0xCE {
        &&& post_cpu == spec_advance(pre_cpu, 2, 2)
            &&& post_mem == pre_mem
            &&& r == TickResult::Unimplemented(opcode)
    } else if opcode == 0xCF {
        &&& post_cpu == spec_advance(pre_cpu, 1, 4)
            &&& post_mem == pre_mem
            &&& r == TickResult::Unimplemented(opcode)
    } else if opcode == 0xD0 {
        &&& post_cpu == (if !pre_cpu.carry {
        spec_ret_post(pre_cpu, pre_mem, 5)
    } else {
        spec_advance(pre_cpu, 1, 2)
    })
            &&& post_mem == pre_mem
            &&& r == TickResult::Executed
    } else if opcode == 0xD1 {
        &&& post_cpu == spec_pop_r16_post(pre_cpu, pre_mem, Reg16::DE)
            &&& post_mem == pre_mem
            &&& r == TickResult::Executed
    } else if opcode == 0xD2 {
        &&& post_cpu == spec_jp_post(pre_cpu, spec_imm16(pre_mem, pre_cpu.program_counter), !pre_cpu.carry)
            &&& post_mem == pre_mem
            &&& r == TickResult::Executed
    } else if opcode == 0xD4 {
        &&& post_cpu == spec_call_post(pre_cpu, spec_imm16(pre_mem, pre_cpu.program_counter), !pre_cpu.carry)
            &&& post_mem == (if !pre_cpu.carry {
                stack_push16(pre_mem, pre_cpu.stack_pointer, wrap_add_u16(pre_cpu.program_counter, 3))
            } else {
                pre_mem
            })
            &&& r == TickResult::Executed
    } else if opcode == 0xD5 {
        &&& post_cpu == spec_push_r16_post(pre_cpu)
            &&& post_mem == stack_push16(pre_mem, pre_cpu.stack_pointer, pre_cpu.spec_de())
            &&& r == TickResult::Executed
    } else if opcode == 0xD6 {
        &&& post_cpu == spec_sub_a_post(pre_cpu, spec_imm8(pre_mem, pre_cpu.program_counter), 2, 2)
            &&& post_mem == pre_mem
            &&& r == TickResult::Executed
    } else if opcode == 0xD7 {
        &&& post_cpu == spec_advance(pre_cpu, 1, 4)
            &&& post_mem == pre_mem
            &&& r == TickResult::Unimplemented(opcode)
    } else if opcode == 0xD8 {
        &&& post_cpu == (if pre_cpu.carry {
        spec_ret_post(pre_cpu, pre_mem, 5)
    } else {
        spec_advance(pre_cpu, 1, 2)
    })
            &&& post_mem == pre_mem
            &&& r == TickResult::Executed
    } else if opcode == 0xD9 {
        &&& post_cpu == spec_reti_cpu_post(pre_cpu, pre_mem)
            &&& post_mem == pre_mem.update(INTERRUPT_REQUEST_ADDRESS as int, (pre_mem[INTERRUPT_REQUEST_ADDRESS as int] & 0xE0))
            &&& r == TickResult::Executed
    } else if opcode == 0xDA {
        &&& post_cpu == spec_jp_post(pre_cpu, spec_imm16(pre_mem, pre_cpu.program_counter), pre_cpu.carry)
            &&& post_mem == pre_mem
            &&& r == TickResult::Executed
    } else if opcode == 0xDC {
        &&& post_cpu == spec_call_post(pre_cpu, spec_imm16(pre_mem, pre_cpu.program_counter), pre_cpu.carry)
            &&& post_mem == (if pre_cpu.carry {
                stack_push16(pre_mem, pre_cpu.stack_pointer, wrap_add_u16(pre_cpu.program_counter, 3))
            } else {
                pre_mem
            })
            &&& r == TickResult::Executed
    } else if opcode == 0xDE {
        &&& post_cpu == spec_advance(pre_cpu, 2, 2)
            &&& post_mem == pre_mem
            &&& r == TickResult::Unimplemented(opcode)
    } else if opcode == 0xDF {
        &&& post_cpu == spec_advance(pre_cpu, 1, 4)
            &&& post_mem == pre_mem
            &&& r == TickResult::Unimplemented(opcode)
    } else if opcode == 0xE0 {
        &&& post_cpu == spec_advance(pre_cpu, 2, 3)
            &&& post_mem == pre_mem.update(spec_high_address(spec_imm8(pre_mem, pre_cpu.program_counter)) as int, pre_cpu.a)
            &&& r == TickResult::Executed
    } else if opcode == 0xE1 {
        &&& post_cpu == spec_pop_r16_post(pre_cpu, pre_mem, Reg16::HL)
            &&& post_mem == pre_mem
            &&& r == TickResult::Executed
    } else if opcode == 0xE2 {
        &&& post_cpu == spec_advance(pre_cpu, 1, 2)
            &&& post_mem == pre_mem.update(spec_high_address(pre_cpu.c) as int, pre_cpu.a)
            &&& r == TickResult::Executed
    } else if opcode == 0xE5 {
        &&& post_cpu == spec_push_r16_post(pre_cpu)
            &&& post_mem == stack_push16(pre_mem, pre_cpu.stack_pointer, pre_cpu.spec_hl())
            &&& r == TickResult::Executed
    } else if opcode == 0xE6 {
        &&& post_cpu == spec_and_a_post(pre_cpu, spec_imm8(pre_mem, pre_cpu.program_counter), 2, 2)
            &&& post_mem == pre_mem
            &&& r == TickResult::Executed
    } else if opcode == 0xE7 {
        &&& post_cpu == spec_advance(pre_cpu, 1, 4)
            &&& post_mem == pre_mem
            &&& r == TickResult::Unimplemented(opcode)
    } else if opcode == 0xE8 {
        &&& post_cpu == spec_add_sp_s8_post(pre_cpu, spec_imm8(pre_mem, pre_cpu.program_counter))
            &&& post_mem == pre_mem
            &&& r == TickResult::Executed
    } else if opcode == 0xE9 {
        &&& post_cpu == spec_jp_hl_post(pre_cpu)
            &&& post_mem == pre_mem
            &&& r == TickResult::Executed
    } else if opcode == 0xEA {
        &&& post_cpu == spec_advance(pre_cpu, 3, 4)
            &&& post_mem == pre_mem.update(spec_imm16(pre_mem, pre_cpu.program_counter) as int, pre_cpu.a)
            &&& r == TickResult::Executed
    } else if opcode == 0xEE {
        &&& post_cpu == spec_xor_a_post(pre_cpu, spec_imm8(pre_mem, pre_cpu.program_counter), 2, 2)
            &&& post_mem == pre_mem
            &&& r == TickResult::Executed
    } else if opcode == 0xEF {
        &&& post_cpu == spec_advance(pre_cpu, 1, 4)
            &&& post_mem == pre_mem
            &&& r == TickResult::Unimplemented(opcode)
    } else if opcode == 0xF0 {
        &&& post_cpu == spec_ld_r8_post(pre_cpu, Reg8::A, pre_mem[spec_high_address(spec_imm8(pre_mem, pre_cpu.program_counter)) as int], 2, 3)
            &&& post_mem == pre_mem
            &&& r == TickResult::Executed
    } else if opcode == 0xF1 {
        &&& post_cpu == spec_pop_af_post(pre_cpu, pre_mem)
            &&& post_mem == pre_mem
            &&& r == TickResult::Executed
    } else if opcode == 0xF2 {
        &&& post_cpu == spec_ld_r8_post(pre_cpu, Reg8::A, pre_mem[spec_high_address(pre_cpu.c) as int], 1, 2)
            &&& post_mem == pre_mem
            &&& r == TickResult::Executed
    } else if opcode == 0xF3 {
        &&& post_cpu == spec_di_cpu_post(pre_cpu)
            &&& post_mem == pre_mem.update(INTERRUPT_REQUEST_ADDRESS as int, (pre_mem[INTERRUPT_REQUEST_ADDRESS as int] & 0xE0))
            &&& r == TickResult::Executed
    } else if opcode == 0xF5 {
        &&& post_cpu == spec_push_r16_post(pre_cpu)
            &&& post_mem == stack_push16(pre_mem, pre_cpu.stack_pointer, spec_word(spec_pack_flags(pre_cpu), pre_cpu.a))
            &&& r == TickResult::Executed
    } else if opcode == 0xF6 {
        &&& post_cpu == spec_or_a_post(pre_cpu, spec_imm8(pre_mem, pre_cpu.program_counter), 2, 2)
            &&& post_mem == pre_mem
            &&& r == TickResult::Executed
    } else if opcode == 0xF7 {
        &&& post_cpu == spec_advance(pre_cpu, 1, 4)
            &&& post_mem == pre_mem
            &&& r == TickResult::Unimplemented(opcode)
    } else if opcode == 0xF8 {
        &&& post_cpu == spec_ld_hl_sp_s8_post(pre_cpu, spec_imm8(pre_mem, pre_cpu.program_counter))
            &&& post_mem == pre_mem
            &&& r == TickResult::Executed
    } else if opcode == 0xF9 {
        &&& post_cpu == spec_ld_sp_hl_post(pre_cpu)
            &&& post_mem == pre_mem
            &&& r == TickResult::Executed
    } else if opcode == 0xFA {
        &&& post_cpu == spec_ld_r8_post(pre_cpu, Reg8::A, pre_mem[spec_imm16(pre_mem, pre_cpu.program_counter) as int], 3, 4)
            &&& post_mem == pre_mem
            &&& r == TickResult::Executed
    } else if opcode == 0xFB {
        &&& post_cpu == spec_ei_post(pre_cpu)
            &&& post_mem == pre_mem
            &&& r == TickResult::Executed
    } else if opcode == 0xFE {
        &&& post_cpu == spec_cp_a_post(pre_cpu, spec_imm8(pre_mem, pre_cpu.program_counter), 2, 2)
            &&& post_mem == pre_mem
            &&& r == TickResult::Executed
    } else if opcode == 0xFF {
        &&& post_cpu == spec_advance(pre_cpu, 1, 4)
            &&& post_mem == pre_mem
            &&& r == TickResult::Unimplemented(opcode)
    } else {
        &&& post_cpu == pre_cpu
        &&& post_mem == pre_mem
        &&& r == TickResult::DecodeFault(opcode)
    }
}

/// Dispatch one opcode in the range 0xC0 to 0xFF:
/// the jumps, calls, returns, stack and interrupt instructions, the immediate-operand arithmetic, and the high-page loads.
pub fn dispatch_control(cpu: &mut Cpu, memory: &mut Memory, opcode: u8) -> (r: TickResult)
    requires
        old(memory).wf(),
        0xC0 <= opcode < 0x100,
        opcode == old(memory)@[old(cpu).program_counter as int],
    ensures
        final(memory).wf(),
        spec_step_control(opcode, *old(cpu), old(memory)@, *final(cpu), final(memory)@, r),
{
    match opcode {
        0xC0 => {
            ret_nz(cpu, memory);
            TickResult::Executed
        },
        0xC1 => {
            pop_bc(cpu, memory);
            TickResult::Executed
        },
        0xC2 => {
            jp_nz_a16(cpu, memory);
            TickResult::Executed
        },
        0xC3 => {
            jp_a16(cpu, memory);
            TickResult::Executed
        },
        0xC4 => {
            call_nz_a16(cpu, memory);
            TickResult::Executed
        },
        0xC5 => {
            push_bc(cpu, memory);
            TickResult::Executed
        },
        0xC6 => {
            add_a_d8(cpu, memory);
            TickResult::Executed
        },
        0xC7 => {
            unimplemented_opcode(cpu, 1, 4);
            TickResult::Unimplemented(opcode)
        },
        0xC8 => {
            ret_z(cpu, memory);
            TickResult::Executed
        },
        0xC9 => {
            ret(cpu, memory);
            TickResult::Executed
        },
        0xCA => {
            jp_z_a16(cpu, memory);
            TickResult::Executed
        },
        0xCB => {
            cpu.process_16_bit_opcode(memory)
        },
        0xCC => {
            call_z_a16(cpu, memory);
            TickResult::Executed
        },
        0xCD => {
            call_a16(cpu, memory);
            TickResult::Executed
        },
        0xCE => {
            unimplemented_opcode(cpu, 2, 2);
            TickResult::Unimplemented(opcode)
        },
        0xCF => {
            unimplemented_opcode(cpu, 1, 4);
            TickResult::Unimplemented(opcode)
        },
        0xD0 => {
            ret_nc(cpu, memory);
            TickResult::Executed
        },
        0xD1 => {
            pop_de(cpu, memory);
            TickResult::Executed
        },
        0xD2 => {
            jp_nc_a16(cpu, memory);
            TickResult::Executed
        },
        0xD4 => {
            call_nc_a16(cpu, memory);
            TickResult::Executed
        },
        0xD5 => {
            push_de(cpu, memory);
            TickResult::Executed
        },
        0xD6 => {
            sub_d8(cpu, memory);
            TickResult::Executed
        },
        0xD7 => {
            unimplemented_opcode(cpu, 1, 4);
            TickResult::Unimplemented(opcode)
        },
        0xD8 => {
            ret_c(cpu, memory);
            TickResult::Executed
        },
        0xD9 => {
            reti(cpu, memory);
            TickResult::Executed
        },
        0xDA => {
            jp_c_a16(cpu, memory);
            TickResult::Executed
        },
        0xDC => {
            call_c_a16(cpu, memory);
            TickResult::Executed
        },
        0xDE => {
            unimplemented_opcode(cpu, 2, 2);
            TickResult::Unimplemented(opcode)
        },
        0xDF => {
            unimplemented_opcode(cpu, 1, 4);
            TickResult::Unimplemented(opcode)
        },
        0xE0 => {
            ld_a8_a(cpu, memory);
            TickResult::Executed
        },
        0xE1 => {
            pop_hl(cpu, memory);
            TickResult::Executed
        },
        0xE2 => {
            ld_port_c_a(cpu, memory);
            TickResult::Executed
        },
        0xE5 => {
            push_hl(cpu, memory);
            TickResult::Executed
        },
        0xE6 => {
            and_d8(cpu, memory);
            TickResult::Executed
        },
        0xE7 => {
            unimplemented_opcode(cpu, 1, 4);
            TickResult::Unimplemented(opcode)
        },
        0xE8 => {
            add_sp_s8(cpu, memory);
            TickResult::Executed
        },
        0xE9 => {
            jp_hl(cpu);
            TickResult::Executed
        },
        0xEA => {
            ld_a16_a(cpu, memory);
            TickResult::Executed
        },
        0xEE => {
            xor_d8(cpu, memory);
            TickResult::Executed
        },
        0xEF => {
            unimplemented_opcode(cpu, 1, 4);
            TickResult::Unimplemented(opcode)
        },
        0xF0 => {
            ld_a_a8(cpu, memory);
            TickResult::Executed
        },
        0xF1 => {
            pop_af(cpu, memory);
            TickResult::Executed
        },
        0xF2 => {
            ld_a_port_c(cpu, memory);
            TickResult::Executed
        },
        0xF3 => {
            di(cpu, memory);
            TickResult::Executed
        },
        0xF5 => {
            push_af(cpu, memory);
            TickResult::Executed
        },
        0xF6 => {
            or_d8(cpu, memory);
            TickResult::Executed
        },
        0xF7 => {
            unimplemented_opcode(cpu, 1, 4);
            TickResult::Unimplemented(opcode)
        },
        0xF8 => {
            ld_hl_sp_plus_s8(cpu, memory);
            TickResult::Executed
        },
        0xF9 => {
            ld_sp_hl(cpu);
            TickResult::Executed
        },
        0xFA => {
            ld_a_a16(cpu, memory);
            TickResult::Executed
        },
        0xFB => {
            ei(cpu);
            TickResult::Executed
        },
        0xFE => {
            cp_d8(cpu, memory);
            TickResult::Executed
        },
        0xFF => {
            unimplemented_opcode(cpu, 1, 4);
            TickResult::Unimplemented(opcode)
        },
        _ => TickResult::DecodeFault(opcode),
    }
}

/// An 8-bit register increment or decrement, and an increment or decrement
/// of the byte at HL, never alter the Carry flag, whatever the register and
/// whatever the CPU state.
pub proof fn lemma_inc_dec_preserve_carry(cpu: Cpu, r: Reg8, value: u8)
    ensures
        spec_inc_r8_post(cpu, r).carry == cpu.carry,
        spec_dec_r8_post(cpu, r).carry == cpu.carry,
        spec_inc_at_hl_flags_post(cpu, value).carry == cpu.carry,
        spec_dec_at_hl_flags_post(cpu, value).carry == cpu.carry,
{
}

/// `XOR A,A` always leaves 0 in register A and sets the Zero flag, whatever
/// the prior contents of A.
pub proof fn lemma_xor_a_clears(cpu: Cpu)
    ensures
        spec_xor_a_post(cpu, cpu.a, 1, 1).a == 0,
        spec_xor_a_post(cpu, cpu.a, 1, 1).zero,
{
    let a = cpu.a;
    assert(a ^ a == 0) by (bit_vector);
}

/// A `CALL a16` followed immediately by a `RET` brings the program counter
/// to the instruction following the call, and restores the stack pointer to
/// its pre-call value, for every CPU state, memory content and call target.
pub proof fn lemma_call_ret_round_trip(cpu: Cpu, mem: Seq<u8>, target: u16)
    requires
        mem.len() == crate::memory::MEMORY_SIZE,
    ensures
        spec_ret_post(
            spec_call_post(cpu, target, true),
            stack_push16(mem, cpu.stack_pointer, wrap_add_u16(cpu.program_counter, 3)),
            4,
        ).program_counter == wrap_add_u16(cpu.program_counter, 3),
        spec_ret_post(
            spec_call_post(cpu, target, true),
            stack_push16(mem, cpu.stack_pointer, wrap_add_u16(cpu.program_counter, 3)),
            4,
        ).stack_pointer == cpu.stack_pointer,
{
    crate::memory::lemma_stack_u16_round_trip(
        mem,
        cpu.stack_pointer,
        wrap_add_u16(cpu.program_counter, 3),
    );
}

/// `PUSH AF` followed immediately by `POP AF` restores register A and all
/// four flags exactly, and restores the stack pointer, for all 16
/// combinations of flags, every value of A, and every memory content.
pub proof fn lemma_push_pop_af_round_trip(cpu: Cpu, mem: Seq<u8>)
    requires
        mem.len() == crate::memory::MEMORY_SIZE,
    ensures
        ({
            let pushed_cpu = spec_push_r16_post(cpu);
            let pushed_mem = stack_push16(
                mem,
                cpu.stack_pointer,
                spec_word(spec_pack_flags(cpu), cpu.a),
            );
            let popped = spec_pop_af_post(pushed_cpu, pushed_mem);
            popped.a == cpu.a && popped.zero == cpu.zero && popped.negative == cpu.negative
                && popped.half_carry == cpu.half_carry && popped.carry == cpu.carry
                && popped.stack_pointer == cpu.stack_pointer
        }),
{
    crate::bits::lemma_word_combine_round_trip(spec_pack_flags(cpu), cpu.a);
}

} // verus!
