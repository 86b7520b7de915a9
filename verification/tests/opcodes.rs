use gameboy_core::cpu::{Cpu, CpuState, TickResult};
use gameboy_core::memory::Memory;
use gameboy_core::opcodes;

fn cpu_with_program(bytes: &[u8]) -> (Cpu, Memory) {
    let mut memory = Memory::new();
    let mut address = 0x0100u16;
    for byte in bytes {
        memory.write_byte_at(address, *byte);
        address = address.wrapping_add(1);
    }
    (Cpu::new(), memory)
}

#[test]
fn ten_inc_b_from_0xff_wraps_and_sets_zero_only_at_zero() {
    let mut cpu = Cpu::new();
    cpu.b = 0xFF;
    cpu.carry = true;

    let mut zero_flags = Vec::new();
    for _ in 0..10 {
        opcodes::inc_b(&mut cpu);
        zero_flags.push(cpu.zero);
        // An increment never alters the Carry flag.
        assert!(cpu.carry);
    }

    // 0xFF wraps through 0x00 up to 0x01 after two steps, 0x09 after ten.
    assert_eq!(cpu.b, 0x09);
    assert_eq!(
        zero_flags,
        vec![true, false, false, false, false, false, false, false, false, false]
    );
}

#[test]
fn inc_and_dec_never_alter_carry() {
    for carry in [false, true] {
        let mut cpu = Cpu::new();
        cpu.carry = carry;
        cpu.b = 0x0F;
        opcodes::inc_b(&mut cpu);
        assert_eq!(cpu.carry, carry);
        assert!(cpu.half_carry);
        opcodes::dec_b(&mut cpu);
        assert_eq!(cpu.carry, carry);
        opcodes::dec_a(&mut cpu);
        assert_eq!(cpu.carry, carry);
    }
}

#[test]
fn inc_b_wrap_to_one_after_two_steps() {
    let mut cpu = Cpu::new();
    cpu.b = 0xFF;
    opcodes::inc_b(&mut cpu);
    assert_eq!(cpu.b, 0x00);
    assert!(cpu.zero);
    assert!(cpu.half_carry);
    opcodes::inc_b(&mut cpu);
    assert_eq!(cpu.b, 0x01);
    assert!(!cpu.zero);
    assert!(!cpu.half_carry);
}

#[test]
fn dec_sets_half_carry_on_low_nibble_borrow() {
    let mut cpu = Cpu::new();
    cpu.c = 0x10;
    opcodes::dec_c(&mut cpu);
    assert_eq!(cpu.c, 0x0F);
    assert!(cpu.half_carry);
    assert!(cpu.negative);
    assert!(!cpu.zero);
}

#[test]
fn xor_a_always_clears_a_and_sets_zero() {
    for a in [0x00u8, 0x01, 0x55, 0xAA, 0xFF] {
        let mut cpu = Cpu::new();
        cpu.a = a;
        cpu.carry = true;
        cpu.half_carry = true;
        cpu.negative = true;
        opcodes::xor_a(&mut cpu);
        assert_eq!(cpu.a, 0);
        assert!(cpu.zero);
        assert!(!cpu.negative);
        assert!(!cpu.half_carry);
        assert!(!cpu.carry);
    }
}

#[test]
fn add_a_b_computes_true_carries() {
    let mut cpu = Cpu::new();
    cpu.a = 0x3A;
    cpu.b = 0xC6;
    opcodes::add_a_b(&mut cpu);
    assert_eq!(cpu.a, 0x00);
    assert!(cpu.zero);
    assert!(!cpu.negative);
    assert!(cpu.half_carry);
    assert!(cpu.carry);

    let mut cpu = Cpu::new();
    cpu.a = 0x08;
    cpu.b = 0x08;
    opcodes::add_a_b(&mut cpu);
    assert_eq!(cpu.a, 0x10);
    assert!(cpu.half_carry);
    assert!(!cpu.carry);

    let mut cpu = Cpu::new();
    cpu.a = 0x80;
    cpu.b = 0x80;
    opcodes::add_a_b(&mut cpu);
    assert_eq!(cpu.a, 0x00);
    assert!(!cpu.half_carry);
    assert!(cpu.carry);
}

#[test]
fn sub_b_computes_true_borrows() {
    let mut cpu = Cpu::new();
    cpu.a = 0x3E;
    cpu.b = 0x3E;
    opcodes::sub_b(&mut cpu);
    assert_eq!(cpu.a, 0x00);
    assert!(cpu.zero);
    assert!(cpu.negative);
    assert!(!cpu.half_carry);
    assert!(!cpu.carry);

    let mut cpu = Cpu::new();
    cpu.a = 0x10;
    cpu.b = 0x01;
    opcodes::sub_b(&mut cpu);
    assert_eq!(cpu.a, 0x0F);
    assert!(cpu.half_carry);
    assert!(!cpu.carry);

    let mut cpu = Cpu::new();
    cpu.a = 0x01;
    cpu.b = 0x02;
    opcodes::sub_b(&mut cpu);
    assert_eq!(cpu.a, 0xFF);
    assert!(cpu.half_carry);
    assert!(cpu.carry);
}

#[test]
fn and_or_cp_set_their_documented_flags() {
    let mut cpu = Cpu::new();
    cpu.a = 0xF0;
    cpu.b = 0x0F;
    opcodes::and_b(&mut cpu);
    assert_eq!(cpu.a, 0x00);
    assert!(cpu.zero);
    assert!(cpu.half_carry);
    assert!(!cpu.carry);

    opcodes::or_d(&mut cpu); // d is 0, a is 0
    assert_eq!(cpu.a, 0x00);
    assert!(cpu.zero);
    assert!(!cpu.half_carry);

    let mut cpu = Cpu::new();
    cpu.a = 0x05;
    cpu.l = 0x06;
    opcodes::cp_l(&mut cpu);
    assert_eq!(cpu.a, 0x05, "CP must not change the accumulator");
    assert!(!cpu.zero);
    assert!(cpu.negative);
    assert!(cpu.carry);
}

#[test]
fn rotates_move_the_expected_bits() {
    let mut cpu = Cpu::new();
    cpu.a = 0x85;
    opcodes::rlca(&mut cpu);
    assert_eq!(cpu.a, 0x0B);
    assert!(cpu.carry);

    let mut cpu = Cpu::new();
    cpu.a = 0x01;
    opcodes::rrca(&mut cpu);
    assert_eq!(cpu.a, 0x80);
    assert!(cpu.carry);

    let mut cpu = Cpu::new();
    cpu.a = 0x80;
    cpu.carry = false;
    opcodes::rla(&mut cpu);
    assert_eq!(cpu.a, 0x00);
    assert!(cpu.carry);
    opcodes::rla(&mut cpu);
    assert_eq!(cpu.a, 0x01, "RLA feeds the previous carry into bit 0");
    assert!(!cpu.carry);

    let mut cpu = Cpu::new();
    cpu.a = 0x01;
    cpu.carry = true;
    opcodes::rra(&mut cpu);
    assert_eq!(cpu.a, 0x80, "RRA feeds the previous carry into bit 7");
    assert!(cpu.carry);
}

#[test]
fn cpl_scf_ccf_behave() {
    let mut cpu = Cpu::new();
    cpu.a = 0x35;
    opcodes::cpl(&mut cpu);
    assert_eq!(cpu.a, 0xCA);
    assert!(cpu.negative);
    assert!(cpu.half_carry);
    assert_eq!(cpu.program_counter, 0x0101);

    opcodes::scf(&mut cpu);
    assert!(cpu.carry);
    assert!(!cpu.negative);
    assert!(!cpu.half_carry);

    opcodes::ccf(&mut cpu);
    assert!(!cpu.carry);
    opcodes::ccf(&mut cpu);
    assert!(cpu.carry);
}

#[test]
fn add_hl_bc_preserves_zero_and_computes_high_carries() {
    let mut cpu = Cpu::new();
    cpu.zero = true;
    cpu.set_hl(0x0FFF);
    cpu.set_bc(0x0001);
    opcodes::add_hl_bc(&mut cpu);
    assert_eq!(cpu.hl(), 0x1000);
    assert!(cpu.half_carry, "carry out of bit 11");
    assert!(!cpu.carry);
    assert!(cpu.zero, "ADD HL,rr preserves the Zero flag");

    let mut cpu = Cpu::new();
    cpu.set_hl(0x8000);
    cpu.set_bc(0x8000);
    opcodes::add_hl_bc(&mut cpu);
    assert_eq!(cpu.hl(), 0x0000);
    assert!(cpu.carry, "carry out of bit 15");
    assert!(!cpu.half_carry);
}

#[test]
fn register_pairs_split_into_their_halves() {
    let mut cpu = Cpu::new();
    cpu.set_bc(0x1234);
    assert_eq!(cpu.b, 0x12);
    assert_eq!(cpu.c, 0x34);
    assert_eq!(cpu.bc(), 0x1234);
    cpu.set_de(0xABCD);
    assert_eq!((cpu.d, cpu.e), (0xAB, 0xCD));
    cpu.set_hl(0x00FF);
    assert_eq!((cpu.h, cpu.l), (0x00, 0xFF));
    assert_eq!(cpu.hl(), 0x00FF);
}

#[test]
fn jr_is_relative_to_the_following_instruction() {
    let (mut cpu, memory) = cpu_with_program(&[0x18, 0x05]);
    opcodes::jr_s8(&mut cpu, &memory);
    assert_eq!(cpu.program_counter, 0x0107);
    assert_eq!(cpu.cycle, 3);

    // A negative offset jumps backwards: 0xFE is -2, the jump's own start.
    let (mut cpu, memory) = cpu_with_program(&[0x18, 0xFE]);
    opcodes::jr_s8(&mut cpu, &memory);
    assert_eq!(cpu.program_counter, 0x0100);
}

#[test]
fn conditional_jr_tests_its_flag() {
    let (mut cpu, memory) = cpu_with_program(&[0x20, 0x10]);
    cpu.zero = true;
    opcodes::jr_nz_s8(&mut cpu, &memory);
    assert_eq!(cpu.program_counter, 0x0102, "not taken");
    assert_eq!(cpu.cycle, 2);

    let (mut cpu, memory) = cpu_with_program(&[0x30, 0x10]);
    cpu.carry = false;
    opcodes::jr_nc_s8(&mut cpu, &memory);
    assert_eq!(cpu.program_counter, 0x0112, "JR NC jumps when Carry is clear");
    assert_eq!(cpu.cycle, 3);
}

#[test]
fn call_then_ret_restores_pc_and_sp() {
    let (mut cpu, mut memory) = cpu_with_program(&[0xCD, 0x00, 0x30]);
    cpu.stack_pointer = 0xFFFE;
    memory.write_byte_at(0x3000, 0xC9); // RET at the subroutine
    opcodes::call_a16(&mut cpu, &mut memory);
    assert_eq!(cpu.program_counter, 0x3000);
    assert_eq!(cpu.stack_pointer, 0xFFFC);
    opcodes::ret(&mut cpu, &memory);
    assert_eq!(cpu.program_counter, 0x0103, "RET lands after the CALL");
    assert_eq!(cpu.stack_pointer, 0xFFFE, "stack pointer is restored");
}

#[test]
fn conditional_call_and_ret_test_their_flags() {
    let (mut cpu, mut memory) = cpu_with_program(&[0xC4, 0x00, 0x20]);
    cpu.stack_pointer = 0xFFFE;
    cpu.zero = true;
    opcodes::call_nz_a16(&mut cpu, &mut memory);
    assert_eq!(cpu.program_counter, 0x0103, "CALL NZ skipped when Zero set");
    assert_eq!(cpu.stack_pointer, 0xFFFE);

    cpu.zero = false;
    cpu.set_program_counter(0x0100);
    opcodes::call_nz_a16(&mut cpu, &mut memory);
    assert_eq!(cpu.program_counter, 0x2000);

    cpu.carry = false;
    opcodes::ret_c(&mut cpu, &memory);
    assert_eq!(cpu.program_counter, 0x2001, "RET C skipped when Carry clear");
    cpu.set_program_counter(0x2000);
    cpu.carry = true;
    opcodes::ret_c(&mut cpu, &memory);
    assert_eq!(cpu.program_counter, 0x0103);
    assert_eq!(cpu.stack_pointer, 0xFFFE);
}

#[test]
fn push_pop_af_restores_flags_and_a_for_all_combinations() {
    for bits in 0..16u8 {
        for a in [0x00u8, 0x5A, 0xFF] {
            let mut cpu = Cpu::new();
            let mut memory = Memory::new();
            cpu.stack_pointer = 0xFFFE;
            cpu.a = a;
            cpu.carry = bits & 1 != 0;
            cpu.half_carry = bits & 2 != 0;
            cpu.negative = bits & 4 != 0;
            cpu.zero = bits & 8 != 0;

            opcodes::push_af(&mut cpu, &mut memory);
            assert_eq!(cpu.stack_pointer, 0xFFFC);

            // Scramble everything the pop must restore.
            cpu.a = !a;
            cpu.carry = bits & 1 == 0;
            cpu.half_carry = bits & 2 == 0;
            cpu.negative = bits & 4 == 0;
            cpu.zero = bits & 8 == 0;

            opcodes::pop_af(&mut cpu, &memory);
            assert_eq!(cpu.a, a);
            assert_eq!(cpu.carry, bits & 1 != 0);
            assert_eq!(cpu.half_carry, bits & 2 != 0);
            assert_eq!(cpu.negative, bits & 4 != 0);
            assert_eq!(cpu.zero, bits & 8 != 0);
            assert_eq!(cpu.stack_pointer, 0xFFFE);
        }
    }
}

#[test]
fn push_pop_bc_round_trips_through_the_stack() {
    let mut cpu = Cpu::new();
    let mut memory = Memory::new();
    cpu.stack_pointer = 0xD000;
    cpu.set_bc(0xBEEF);
    opcodes::push_bc(&mut cpu, &mut memory);
    cpu.set_bc(0x0000);
    opcodes::pop_bc(&mut cpu, &memory);
    assert_eq!(cpu.bc(), 0xBEEF);
    assert_eq!(cpu.stack_pointer, 0xD000);
}

#[test]
fn ld_hl_inc_and_dec_move_hl_after_the_access() {
    let mut cpu = Cpu::new();
    let mut memory = Memory::new();
    cpu.a = 0x42;
    cpu.set_hl(0x9000);
    opcodes::ld_hl_inc_a(&mut cpu, &mut memory);
    assert_eq!(memory.read_byte_at(0x9000), 0x42);
    assert_eq!(cpu.hl(), 0x9001);

    opcodes::ld_hl_dec_a(&mut cpu, &mut memory);
    assert_eq!(memory.read_byte_at(0x9001), 0x42);
    assert_eq!(cpu.hl(), 0x9000);

    opcodes::ld_a_hl_inc(&mut cpu, &memory);
    assert_eq!(cpu.a, 0x42);
    assert_eq!(cpu.hl(), 0x9001);

    opcodes::ld_a_hl_dec(&mut cpu, &memory);
    assert_eq!(cpu.hl(), 0x9000);
}

#[test]
fn inc_dec_at_hl_touch_memory_and_leave_carry() {
    let mut cpu = Cpu::new();
    let mut memory = Memory::new();
    cpu.carry = true;
    cpu.set_hl(0xC123);
    memory.write_byte_at(0xC123, 0xFF);
    opcodes::inc_hl_address(&mut cpu, &mut memory);
    assert_eq!(memory.read_byte_at(0xC123), 0x00);
    assert!(cpu.zero);
    assert!(cpu.half_carry);
    assert!(cpu.carry, "INC (HL) never alters Carry");

    opcodes::dec_hl_address(&mut cpu, &mut memory);
    assert_eq!(memory.read_byte_at(0xC123), 0xFF);
    assert!(!cpu.zero);
    assert!(cpu.half_carry);
    assert!(cpu.negative);
    assert!(cpu.carry, "DEC (HL) never alters Carry");
}

#[test]
fn add_sp_s8_uses_low_byte_carries() {
    let (mut cpu, memory) = cpu_with_program(&[0xE8, 0x01]);
    cpu.stack_pointer = 0xFFFF;
    opcodes::add_sp_s8(&mut cpu, &memory);
    assert_eq!(cpu.stack_pointer, 0x0000, "wraps modulo 2^16");
    assert!(cpu.half_carry);
    assert!(cpu.carry);
    assert!(!cpu.zero);
    assert!(!cpu.negative);

    let (mut cpu, memory) = cpu_with_program(&[0xE8, 0xFF]); // -1
    cpu.stack_pointer = 0x0000;
    opcodes::add_sp_s8(&mut cpu, &memory);
    assert_eq!(cpu.stack_pointer, 0xFFFF);
    assert!(!cpu.half_carry, "0x00 + 0xFF produces no low-byte carries");
    assert!(!cpu.carry);
}

#[test]
fn ld_hl_sp_plus_s8_leaves_sp_alone() {
    let (mut cpu, memory) = cpu_with_program(&[0xF8, 0xFE]); // -2
    cpu.stack_pointer = 0x0005;
    opcodes::ld_hl_sp_plus_s8(&mut cpu, &memory);
    assert_eq!(cpu.hl(), 0x0003);
    assert_eq!(cpu.stack_pointer, 0x0005);
}

#[test]
fn high_page_loads_use_address_0xff00_plus_offset() {
    let (mut cpu, mut memory) = cpu_with_program(&[0xE0, 0x47]);
    cpu.a = 0x99;
    opcodes::ld_a8_a(&mut cpu, &mut memory);
    assert_eq!(memory.read_byte_at(0xFF47), 0x99);

    let (mut cpu, mut memory) = cpu_with_program(&[0xF0, 0x47]);
    memory.write_byte_at(0xFF47, 0x5C);
    opcodes::ld_a_a8(&mut cpu, &memory);
    assert_eq!(cpu.a, 0x5C);

    let mut cpu = Cpu::new();
    cpu.a = 0x12;
    cpu.c = 0x03;
    opcodes::ld_port_c_a(&mut cpu, &mut memory);
    assert_eq!(memory.read_byte_at(0xFF03), 0x12);
    cpu.a = 0;
    opcodes::ld_a_port_c(&mut cpu, &memory);
    assert_eq!(cpu.a, 0x12);
}

#[test]
fn di_clears_ime_and_all_request_bits_preserving_high_bits() {
    let mut cpu = Cpu::new();
    let mut memory = Memory::new();
    cpu.ime = true;
    memory.write_byte_at(0xFF0F, 0b1011_1111);
    opcodes::di(&mut cpu, &mut memory);
    assert!(!cpu.ime);
    assert_eq!(
        memory.read_byte_at(0xFF0F),
        0b1010_0000,
        "bits 0-4 cleared, bits 5-7 preserved"
    );
}

#[test]
fn ei_sets_ime() {
    let mut cpu = Cpu::new();
    opcodes::ei(&mut cpu);
    assert!(cpu.ime);
    assert_eq!(cpu.program_counter, 0x0101);
}

#[test]
fn reti_pops_pc_clears_ime_and_acknowledges_requests() {
    let mut cpu = Cpu::new();
    let mut memory = Memory::new();
    cpu.ime = true;
    cpu.stack_pointer = 0xFFFC;
    memory.write_16_bit_value_at(0xFFFC, 0x1234);
    memory.write_byte_at(0xFF0F, 0b0001_1111);
    opcodes::reti(&mut cpu, &mut memory);
    assert_eq!(cpu.program_counter, 0x1234);
    assert_eq!(cpu.stack_pointer, 0xFFFE);
    assert!(!cpu.ime);
    assert_eq!(memory.read_byte_at(0xFF0F), 0, "all five request bits cleared");
}

#[test]
fn stop_only_commits_with_no_interrupt_enabled() {
    let mut cpu = Cpu::new();
    let mut memory = Memory::new();
    memory.write_byte_at(0xFFFF, 0b0000_0100);
    opcodes::stop(&mut cpu, &memory);
    assert_eq!(cpu.state, CpuState::Normal, "an enabled interrupt blocks Stop");
    assert_eq!(cpu.program_counter, 0x0102);

    let mut cpu = Cpu::new();
    let memory = Memory::new();
    opcodes::stop(&mut cpu, &memory);
    assert_eq!(cpu.state, CpuState::Stop);
}

#[test]
fn halt_enters_halt_mode() {
    let mut cpu = Cpu::new();
    opcodes::halt(&mut cpu);
    assert_eq!(cpu.state, CpuState::Halt);
    assert_eq!(cpu.program_counter, 0x0101);
    assert_eq!(cpu.cycle, 1);
}

#[test]
fn jp_and_jp_hl_load_the_target() {
    let (mut cpu, memory) = cpu_with_program(&[0xC3, 0xCD, 0xAB]);
    opcodes::jp_a16(&mut cpu, &memory);
    assert_eq!(cpu.program_counter, 0xABCD);
    assert_eq!(cpu.cycle, 4);

    let mut cpu = Cpu::new();
    cpu.set_hl(0x4567);
    opcodes::jp_hl(&mut cpu);
    assert_eq!(cpu.program_counter, 0x4567);

    let (mut cpu, memory) = cpu_with_program(&[0xDA, 0xCD, 0xAB]);
    cpu.carry = false;
    opcodes::jp_c_a16(&mut cpu, &memory);
    assert_eq!(cpu.program_counter, 0x0103, "JP C skipped when Carry clear");
}

#[test]
fn ld_a16_sp_stores_both_bytes() {
    let (mut cpu, mut memory) = cpu_with_program(&[0x08, 0x00, 0xC1]);
    cpu.stack_pointer = 0xFFF8;
    opcodes::ld_a16_sp(&mut cpu, &mut memory);
    assert_eq!(memory.read_byte_at(0xC100), 0xF8);
    assert_eq!(memory.read_byte_at(0xC101), 0xFF);
    assert_eq!(cpu.program_counter, 0x0103);
    assert_eq!(cpu.cycle, 5);
}

#[test]
fn register_to_register_loads_copy_without_flags() {
    let mut cpu = Cpu::new();
    cpu.h = 0x7E;
    cpu.zero = true;
    opcodes::ld_b_h(&mut cpu);
    assert_eq!(cpu.b, 0x7E);
    assert!(cpu.zero, "loads touch no flags");
    assert_eq!(cpu.program_counter, 0x0101);
    assert_eq!(cpu.cycle, 1);

    let mut memory = Memory::new();
    cpu.set_hl(0xC000);
    memory.write_byte_at(0xC000, 0x9A);
    opcodes::ld_e_hl(&mut cpu, &memory);
    assert_eq!(cpu.e, 0x9A);

    cpu.d = 0x31;
    opcodes::ld_hl_d(&mut cpu, &mut memory);
    assert_eq!(memory.read_byte_at(0xC000), 0x31);
}

#[test]
fn immediate_loads_take_the_operand_byte() {
    let (mut cpu, memory) = cpu_with_program(&[0x3E, 0x7B]);
    opcodes::ld_a_d8(&mut cpu, &memory);
    assert_eq!(cpu.a, 0x7B);
    assert_eq!(cpu.program_counter, 0x0102);
    assert_eq!(cpu.cycle, 2);

    let (mut cpu, memory) = cpu_with_program(&[0x31, 0x44, 0x55]);
    opcodes::ld_sp_d16(&mut cpu, &memory);
    assert_eq!(cpu.stack_pointer, 0x5544);
    assert_eq!(cpu.program_counter, 0x0103);
}
