//! Core of a Game Boy (Sharp LR35902) emulator: a flat 64 KiB addressable
//! memory and a CPU that fetches, decodes and executes one opcode per `tick`,
//! with exact register, flag, stack and cycle-count transitions.

pub mod bits;
pub mod breakpoints;
pub mod cartridge;
pub mod cpu;
pub mod cpu_info;
pub mod debugger;
pub mod emulator;
pub mod gameboy;
pub mod memory;
pub mod memory_dump;
pub mod menu_bar;
pub mod message_queue;
pub mod opcodes;
pub mod toolbar;
