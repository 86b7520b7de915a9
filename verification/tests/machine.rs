use gameboy_core::breakpoints::{Breakpoint, Breakpoints};
use gameboy_core::cartridge::Cartridge;
use gameboy_core::cpu::{Cpu, InterruptFlag, TickResult};
use gameboy_core::debugger::Debugger;
use gameboy_core::emulator::Emulator;
use gameboy_core::gameboy::GameBoy;
use gameboy_core::memory::Memory;
use gameboy_core::memory_dump::MemoryDump;
use gameboy_core::message_queue::{MessageData, MessageQueue};

#[test]
fn inc_a_scenario_through_one_tick() {
    // PC starts at 0x0100, SP at 0x0000, all registers 0; INC A at 0x0100.
    let mut cpu = Cpu::new();
    let mut memory = Memory::new();
    assert_eq!(cpu.program_counter, 0x0100);
    assert_eq!(cpu.stack_pointer, 0x0000);
    memory.write_byte_at(0x0100, 0x3C);

    let outcome = cpu.tick(&mut memory);

    assert_eq!(outcome, TickResult::Executed);
    assert_eq!(cpu.a, 1);
    assert_eq!(cpu.program_counter, 0x0101);
    assert!(!cpu.zero);
    assert_eq!(cpu.cycle, 1);
}

#[test]
fn ld_bc_scenario_recombines_to_the_immediate() {
    // LD BC,0x1234 encoded little-endian at 0x0100.
    let mut cpu = Cpu::new();
    let mut memory = Memory::new();
    memory.write_byte_at(0x0100, 0x01);
    memory.write_byte_at(0x0101, 0x34);
    memory.write_byte_at(0x0102, 0x12);

    let outcome = cpu.tick(&mut memory);

    assert_eq!(outcome, TickResult::Executed);
    assert_eq!(cpu.bc(), 0x1234, "B and C recombine to the immediate");
    assert_eq!(cpu.program_counter, 0x0103);
}

#[test]
fn call_ret_scenario_through_ticks() {
    let mut cpu = Cpu::new();
    let mut memory = Memory::new();
    cpu.stack_pointer = 0xFFFE;
    memory.write_byte_at(0x0100, 0xCD); // CALL 0x0200
    memory.write_byte_at(0x0101, 0x00);
    memory.write_byte_at(0x0102, 0x02);
    memory.write_byte_at(0x0200, 0xC9); // RET

    assert_eq!(cpu.tick(&mut memory), TickResult::Executed);
    assert_eq!(cpu.program_counter, 0x0200);
    assert_eq!(cpu.tick(&mut memory), TickResult::Executed);
    assert_eq!(cpu.program_counter, 0x0103);
    assert_eq!(cpu.stack_pointer, 0xFFFE);
}

#[test]
fn unknown_opcode_is_a_decode_fault_and_changes_nothing() {
    for opcode in [0xD3u8, 0xDB, 0xDD, 0xE3, 0xE4, 0xEB, 0xEC, 0xED, 0xF4, 0xFC, 0xFD] {
        let mut cpu = Cpu::new();
        let mut memory = Memory::new();
        memory.write_byte_at(0x0100, opcode);
        let before = cpu;

        let outcome = cpu.tick(&mut memory);

        assert_eq!(outcome, TickResult::DecodeFault(opcode));
        assert_eq!(cpu, before, "a decode fault leaves the CPU untouched");
        assert_eq!(memory.read_byte_at(0x0100), opcode);
    }
}

#[test]
fn unimplemented_opcode_is_a_fixed_cost_no_op() {
    // DAA is recognized but stubbed: 1 byte, 1 cycle, state untouched.
    let mut cpu = Cpu::new();
    let mut memory = Memory::new();
    memory.write_byte_at(0x0100, 0x27);
    assert_eq!(cpu.tick(&mut memory), TickResult::Unimplemented(0x27));
    assert_eq!(cpu.program_counter, 0x0101);
    assert_eq!(cpu.cycle, 1);

    // A stubbed RST costs 4 cycles.
    let mut cpu = Cpu::new();
    let mut memory = Memory::new();
    memory.write_byte_at(0x0100, 0xC7);
    assert_eq!(cpu.tick(&mut memory), TickResult::Unimplemented(0xC7));
    assert_eq!(cpu.program_counter, 0x0101);
    assert_eq!(cpu.cycle, 4);

    // A stubbed ADC with immediate operand is 2 bytes long.
    let mut cpu = Cpu::new();
    let mut memory = Memory::new();
    memory.write_byte_at(0x0100, 0xCE);
    assert_eq!(cpu.tick(&mut memory), TickResult::Unimplemented(0xCE));
    assert_eq!(cpu.program_counter, 0x0102);
    assert_eq!(cpu.cycle, 2);
}

#[test]
fn cb_prefix_reports_the_second_byte() {
    let mut cpu = Cpu::new();
    let mut memory = Memory::new();
    memory.write_byte_at(0x0100, 0xCB);
    memory.write_byte_at(0x0101, 0x37);
    assert_eq!(cpu.tick(&mut memory), TickResult::Unimplemented(0x37));
    assert_eq!(cpu.program_counter, 0x0102);
    assert_eq!(cpu.cycle, 2);
}

#[test]
fn interrupt_flag_accessors_touch_single_bits() {
    let mut cpu = Cpu::new();
    let mut memory = Memory::new();
    memory.write_byte_at(0xFFFF, 0b1110_0000);

    cpu.set_interrupt_flag_state(&mut memory, InterruptFlag::Timer(Some(true)));
    assert_eq!(memory.read_byte_at(0xFFFF), 0b1110_0100);
    assert!(cpu.is_interrupt_flag_set(&memory, InterruptFlag::Timer(None)));
    assert!(!cpu.is_interrupt_flag_set(&memory, InterruptFlag::VBlank(None)));

    cpu.set_interrupt_flag_state(&mut memory, InterruptFlag::Timer(Some(false)));
    assert_eq!(memory.read_byte_at(0xFFFF), 0b1110_0000, "bits 5-7 preserved");

    cpu.set_interrupt_request_flag_state(&mut memory, InterruptFlag::Joypad(Some(true)));
    assert_eq!(memory.read_byte_at(0xFF0F), 0b0001_0000);
    assert!(cpu.is_request_interrupt_flag_set(&memory, InterruptFlag::Joypad(None)));
    assert!(!cpu.is_request_interrupt_flag_set(&memory, InterruptFlag::Serial(None)));

    // A missing payload counts as false.
    cpu.set_interrupt_request_flag_state(&mut memory, InterruptFlag::Joypad(None));
    assert_eq!(memory.read_byte_at(0xFF0F), 0);
}

#[test]
fn cpu_reset_restores_the_initial_state() {
    let mut cpu = Cpu::new();
    cpu.a = 5;
    cpu.set_program_counter(0x4000);
    cpu.add_cycles(7);
    cpu.zero = true;
    cpu.reset();
    assert_eq!(cpu, Cpu::new());

    cpu.move_program_counter_by(3);
    assert_eq!(cpu.get_program_counter(), 0x0103);
    cpu.reset_program_counter();
    assert_eq!(cpu.get_program_counter(), 0x0100);
}

#[test]
fn gameboy_loads_a_cartridge_and_runs_it() {
    let mut gameboy = GameBoy::new();
    let cartridge = Cartridge::new_from_data("demo".to_owned(), vec![0u8; 0x200]);
    assert!(gameboy.load_cartridge(&cartridge));
    // The loaded program is all NOP; the CPU starts at 0x0100.
    assert_eq!(gameboy.tick(), TickResult::Executed);
    assert_eq!(gameboy.get_cpu_readonly().program_counter, 0x0101);
    assert_eq!(gameboy.get_cpu_readonly().cycle, 1);
}

#[test]
fn gameboy_refuses_an_oversized_cartridge() {
    let mut gameboy = GameBoy::new();
    let cartridge = Cartridge::new_from_data("too big".to_owned(), vec![0x42u8; 0x10001]);
    assert!(!gameboy.load_cartridge(&cartridge));
    assert_eq!(gameboy.get_memory_readonly().read_byte_at(0x0000), 0);
}

#[test]
fn gameboy_reset_optionally_clears_memory() {
    let mut gameboy = GameBoy::new();
    let cartridge = Cartridge::new_from_data("demo".to_owned(), vec![0x3Cu8; 4]);
    assert!(gameboy.load_cartridge(&cartridge));
    assert_eq!(gameboy.get_memory_readonly().read_byte_at(0x0002), 0x3C);

    gameboy.reset(false);
    assert_eq!(gameboy.get_cpu_readonly().program_counter, 0x0100);
    assert_eq!(gameboy.get_memory_readonly().read_byte_at(0x0002), 0x3C);

    gameboy.reset(true);
    assert_eq!(gameboy.get_memory_readonly().read_byte_at(0x0002), 0x00);
}

#[test]
fn cartridge_exposes_name_and_data() {
    let empty = Cartridge::new_empty();
    assert_eq!(empty.get_name(), "Empty");
    assert!(empty.get_data().is_empty());

    let cartridge = Cartridge::new_from_data("tetris.gb".to_owned(), vec![1, 2, 3]);
    assert_eq!(cartridge.get_name(), "tetris.gb");
    assert_eq!(cartridge.get_data(), &vec![1, 2, 3]);
}

#[test]
fn message_queue_is_first_in_first_out() {
    let mut queue = MessageQueue::default();
    assert!(matches!(queue.poll(), None));
    queue.push(MessageData::TickOnce);
    queue.push(MessageData::UpdateRunningState(true));
    assert!(matches!(queue.poll(), Some(MessageData::TickOnce)));
    assert!(matches!(queue.poll(), Some(MessageData::UpdateRunningState(true))));
    assert!(matches!(queue.poll(), None));
}

#[test]
fn breakpoints_collect_active_addresses() {
    let mut breakpoints = Breakpoints::default();
    assert!(breakpoints.is_new_breakpoint_allowed(0x0100));
    assert!(breakpoints.add_breakpoint(Breakpoint::new("entry", 0x0100)));
    assert!(breakpoints.add_breakpoint(Breakpoint::new("loop", 0x0200)));
    assert!(
        !breakpoints.add_breakpoint(Breakpoint::new("dup", 0x0100)),
        "a second breakpoint on the same address is refused"
    );
    assert_eq!(breakpoints.get_active_breakpoint_addresses(), vec![0x0100, 0x0200]);

    breakpoints.breakpoints[0].is_enabled = false;
    assert_eq!(breakpoints.get_active_breakpoint_addresses(), vec![0x0200]);
}

#[test]
fn breakpoint_refresh_fires_on_the_program_counter() {
    let mut breakpoints = Breakpoints::default();
    let mut queue = MessageQueue::default();
    let mut gameboy = GameBoy::new();
    let cartridge = Cartridge::new_from_data("demo".to_owned(), vec![0x55u8; 0x200]);
    assert!(gameboy.load_cartridge(&cartridge));

    assert!(breakpoints.add_breakpoint(Breakpoint::new("entry", 0x0100)));
    assert!(breakpoints.add_breakpoint(Breakpoint::new("elsewhere", 0x0180)));

    breakpoints.refresh_from_gameboy(&mut queue, &gameboy, true);

    assert_eq!(breakpoints.breakpoints[0].value, 0x55, "shadow value re-read");
    assert_eq!(breakpoints.breakpoints[0].invocation_count, 1);
    assert_eq!(breakpoints.breakpoints[1].invocation_count, 0);
    assert!(matches!(queue.poll(), Some(MessageData::BreakpointTriggered)));
    assert!(matches!(queue.poll(), None));

    // Paused execution does not fire breakpoints.
    breakpoints.refresh_from_gameboy(&mut queue, &gameboy, false);
    assert_eq!(breakpoints.breakpoints[0].invocation_count, 1);
    assert!(matches!(queue.poll(), None));
}

#[test]
fn memory_dump_remembers_breakpoint_addresses() {
    let mut dump = MemoryDump::default();
    dump.set_breakpoint_addresses(&vec![0x0100, 0xC000]);
    // Updating again replaces the list.
    dump.set_breakpoint_addresses(&vec![0x0200]);
    let _ = dump;
}

#[test]
fn debugger_should_tick_respects_the_switchboard() {
    let mut debugger = Debugger::new();
    assert!(!debugger.gameboy_should_tick(), "no game loaded");

    debugger.debugger_state.is_game_loaded = true;
    assert!(!debugger.gameboy_should_tick(), "paused by default");

    debugger.debugger_state.is_running = true;
    assert!(debugger.gameboy_should_tick());

    debugger.debugger_state.should_tick_once = true;
    assert!(debugger.gameboy_should_tick(), "a single step is owed");
    assert!(!debugger.debugger_state.should_tick_once);
    assert!(!debugger.debugger_state.is_running, "single step pauses");
    assert!(!debugger.gameboy_should_tick());
}

#[test]
fn debugger_update_applies_queued_messages_in_order() {
    let mut debugger = Debugger::new();
    let mut gameboy = GameBoy::new();
    debugger.debugger_state.is_game_loaded = true;

    debugger.message_queue.push(MessageData::UpdateRunningState(true));
    debugger.message_queue.push(MessageData::LoadRomFromDisk("game.gb".to_owned()));
    debugger.message_queue.push(MessageData::BreakpointTriggered);

    let rom_requests = debugger.update(&mut gameboy);

    assert_eq!(rom_requests, vec!["game.gb".to_owned()]);
    assert!(!debugger.debugger_state.is_running, "the trigger wins, being last");
    assert!(debugger.debugger_state.is_game_loaded);
    assert!(matches!(debugger.message_queue.poll(), None));
}

#[test]
fn debugger_update_resets_the_gameboy_on_request() {
    let mut debugger = Debugger::new();
    let mut gameboy = GameBoy::new();
    let cartridge = Cartridge::new_from_data("demo".to_owned(), vec![0x3Cu8; 8]);
    assert!(debugger.load_cartridge(&cartridge, &mut gameboy));
    assert!(debugger.debugger_state.is_game_loaded);

    debugger.message_queue.push(MessageData::ResetGameBoy(true));
    let rom_requests = debugger.update(&mut gameboy);

    assert!(rom_requests.is_empty());
    assert!(!debugger.debugger_state.is_game_loaded, "clearing memory unloads the game");
    assert_eq!(gameboy.get_memory_readonly().read_byte_at(0x0000), 0);
    assert_eq!(gameboy.get_cpu_readonly().program_counter, 0x0100);
}

#[test]
fn debugger_refuses_an_oversized_cartridge() {
    let mut debugger = Debugger::new();
    let mut gameboy = GameBoy::new();
    let cartridge = Cartridge::new_from_data("too big".to_owned(), vec![0u8; 0x10001]);
    assert!(!debugger.load_cartridge(&cartridge, &mut gameboy));
    assert!(!debugger.debugger_state.is_game_loaded);
}

#[test]
fn emulator_starts_fresh() {
    let mut emulator = Emulator::new();
    assert_eq!(emulator.gameboy.get_cpu_readonly().program_counter, 0x0100);
    assert!(!emulator.debugger.gameboy_should_tick());
}
