//! The debugger: it owns the message queue through which a front-end
//! injects control commands, decides before every frame whether the GameBoy
//! may execute its next instruction, and applies queued commands to the
//! device. Everything that draws panels is a front-end concern; asking for
//! a ROM file to be read from disk is answered by returning the requested
//! paths to the surrounding driver.

use vstd::prelude::*;

use crate::breakpoints::{spec_active_addresses, Breakpoints};
use crate::cartridge::Cartridge;
use crate::cpu::{spec_initial_cpu, Cpu};
use crate::cpu_info::CpuInfo;
use crate::gameboy::GameBoy;
use crate::memory::MEMORY_SIZE;
use crate::memory_dump::MemoryDump;
use crate::menu_bar::MenuBar;
use crate::message_queue::{MessageData, MessageQueue};
use crate::toolbar::Toolbar;

verus! {

/// Shared switchboard of the debugger: whether the emulator runs
/// continuously, whether exactly one instruction is owed, and whether a
/// game is loaded at all.
#[derive(Clone, Copy, PartialEq, Eq, Structural, Debug)]
pub struct GlobalDebuggerState {
    /// Continuous execution is on.
    pub is_running: bool,
    /// Exactly one instruction should run, then execution pauses again.
    pub should_tick_once: bool,
    /// A game has been loaded into memory.
    pub is_game_loaded: bool,
}

impl Default for GlobalDebuggerState {
    /// Paused, nothing owed, no game loaded.
    fn default() -> (r: Self)
        ensures
            r == (GlobalDebuggerState {
                is_running: false,
                should_tick_once: false,
                is_game_loaded: false,
            }),
    {
        Self { is_running: false, should_tick_once: false, is_game_loaded: false }
    }
}

/// The effect of one queued message on the debugger switchboard and the
/// device, together with the ROM paths whose loading it requests.
pub open spec fn spec_apply_message(
    state: GlobalDebuggerState,
    cpu: Cpu,
    mem: Seq<u8>,
    message: MessageData,
) -> (GlobalDebuggerState, Cpu, Seq<u8>, Seq<String>) {
    match message {
        MessageData::LoadRomFromDisk(path) => (state, cpu, mem, seq![path]),
        MessageData::UpdateRunningState(run) => (
            GlobalDebuggerState { is_running: run, ..state },
            cpu,
            mem,
            Seq::empty(),
        ),
        MessageData::TickOnce => (
            GlobalDebuggerState { should_tick_once: true, ..state },
            cpu,
            mem,
            Seq::empty(),
        ),
        MessageData::ResetGameBoy(clear_memory) => (
            GlobalDebuggerState {
                is_game_loaded: if clear_memory {
                    false
                } else {
                    state.is_game_loaded
                },
                ..state
            },
            spec_initial_cpu(),
            if clear_memory {
                Seq::new(MEMORY_SIZE as nat, |i: int| 0u8)
            } else {
                mem
            },
            Seq::empty(),
        ),
        MessageData::BreakpointTriggered => (
            GlobalDebuggerState { is_running: false, ..state },
            cpu,
            mem,
            Seq::empty(),
        ),
    }
}

/// The effect of draining a whole message queue, oldest message first: the
/// final switchboard, CPU and memory, and the requested ROM paths in
/// order.
pub open spec fn spec_process_messages(
    state: GlobalDebuggerState,
    cpu: Cpu,
    mem: Seq<u8>,
    messages: Seq<MessageData>,
) -> (GlobalDebuggerState, Cpu, Seq<u8>, Seq<String>)
    decreases messages.len(),
{
    if messages.len() == 0 {
        (state, cpu, mem, Seq::empty())
    } else {
        let head = spec_apply_message(state, cpu, mem, messages[0]);
        let rest = spec_process_messages(head.0, head.1, head.2, messages.drop_first());
        (rest.0, rest.1, rest.2, head.3 + rest.3)
    }
}

/// GameBoy debugger.
pub struct Debugger {
    /// Queue of pending control commands.
    pub message_queue: MessageQueue,
    /// Menu bar state.
    pub menu: MenuBar,
    /// Toolbar state.
    pub toolbar: Toolbar,
    /// The breakpoint collection.
    pub breakpoints: Breakpoints,
    /// CPU inspection panel state.
    pub cpu_info: CpuInfo,
    /// Memory inspection panel state.
    pub memory_dump: MemoryDump,
    /// The shared switchboard.
    pub debugger_state: GlobalDebuggerState,
}

impl Debugger {
    /// Create a new debugger instance with every part in its default state.
    pub fn new() -> (r: Self)
        ensures
            r.message_queue@ == Seq::<MessageData>::empty(),
            r.breakpoints.breakpoints@.len() == 0,
            r.memory_dump.spec_breakpoint_addresses() == Seq::<u16>::empty(),
            !r.toolbar.clear_memory_on_cpu_reset,
            r.debugger_state == (GlobalDebuggerState {
                is_running: false,
                should_tick_once: false,
                is_game_loaded: false,
            }),
    {
        Self {
            message_queue: MessageQueue::default(),
            menu: MenuBar::default(),
            toolbar: Toolbar::default(),
            breakpoints: Breakpoints::default(),
            cpu_info: CpuInfo::default(),
            memory_dump: MemoryDump::default(),
            debugger_state: GlobalDebuggerState::default(),
        }
    }

    /// Check if the emulator is allowed to execute the next instruction:
    /// never without a loaded game; once, clearing the run state, when a
    /// single step is owed; otherwise whenever continuous execution is on.
    pub fn gameboy_should_tick(&mut self) -> (r: bool)
        ensures
            r == (old(self).debugger_state.is_game_loaded && (
            old(self).debugger_state.should_tick_once || old(self).debugger_state.is_running)),
            old(self).debugger_state.is_game_loaded && old(self).debugger_state.should_tick_once
                ==> (*final(self) == Debugger {
                debugger_state: GlobalDebuggerState {
                    is_running: false,
                    should_tick_once: false,
                    ..old(self).debugger_state
                },
                ..*old(self)
            }),
            !(old(self).debugger_state.is_game_loaded && old(
                self,
            ).debugger_state.should_tick_once) ==> *final(self) == *old(self),
    {
        // Cannot execute anything if no game has been loaded
        if !self.debugger_state.is_game_loaded {
            return false;
        }
        // Only execute the next instruction once and enter the pause state
        // on the next update
        if self.debugger_state.should_tick_once {
            self.debugger_state.is_running = false;
            self.debugger_state.should_tick_once = false;
            return true;
        }
        // No special condition left to check - simply allow the emulator to
        // run if not paused
        self.debugger_state.is_running
    }

    /// Update the debugger's internal state: drain the message queue,
    /// applying each command in order to the switchboard and the device,
    /// then hand the memory inspection panel the current list of active
    /// breakpoint addresses. ROM load requests cannot be answered here -
    /// reading a file is the surrounding driver's business - so the
    /// requested paths are returned, in order, for the driver to load and
    /// hand back through `load_cartridge`.
    pub fn update(&mut self, gameboy: &mut GameBoy) -> (rom_requests: Vec<String>)
        requires
            old(gameboy).wf(),
        ensures
            final(gameboy).wf(),
            ({
                let outcome = spec_process_messages(
                    old(self).debugger_state,
                    old(gameboy).spec_cpu(),
                    old(gameboy).spec_memory(),
                    old(self).message_queue@,
                );
                &&& final(self).debugger_state == outcome.0
                &&& final(gameboy).spec_cpu() == outcome.1
                &&& final(gameboy).spec_memory() == outcome.2
                &&& rom_requests@ == outcome.3
            }),
            final(self).message_queue@.len() == 0,
            final(self).breakpoints == old(self).breakpoints,
            final(self).toolbar == old(self).toolbar,
            final(self).memory_dump.spec_breakpoint_addresses() == spec_active_addresses(
                old(self).breakpoints.breakpoints@,
            ),
    {
        let mut rom_requests: Vec<String> = Vec::new();

        loop
            invariant
                gameboy.wf(),
                ({
                    let full = spec_process_messages(
                        old(self).debugger_state,
                        old(gameboy).spec_cpu(),
                        old(gameboy).spec_memory(),
                        old(self).message_queue@,
                    );
                    let rest = spec_process_messages(
                        self.debugger_state,
                        gameboy.spec_cpu(),
                        gameboy.spec_memory(),
                        self.message_queue@,
                    );
                    &&& full.0 == rest.0
                    &&& full.1 == rest.1
                    &&& full.2 == rest.2
                    &&& full.3 == rom_requests@ + rest.3
                }),
                self.breakpoints == old(self).breakpoints,
                self.toolbar == old(self).toolbar,
                self.memory_dump == old(self).memory_dump,
                self.menu == old(self).menu,
                self.cpu_info == old(self).cpu_info,
            ensures
                gameboy.wf(),
                self.message_queue@.len() == 0,
                ({
                    let full = spec_process_messages(
                        old(self).debugger_state,
                        old(gameboy).spec_cpu(),
                        old(gameboy).spec_memory(),
                        old(self).message_queue@,
                    );
                    &&& full.0 == self.debugger_state
                    &&& full.1 == gameboy.spec_cpu()
                    &&& full.2 == gameboy.spec_memory()
                    &&& full.3 == rom_requests@ + Seq::<String>::empty()
                }),
                self.breakpoints == old(self).breakpoints,
                self.toolbar == old(self).toolbar,
                self.memory_dump == old(self).memory_dump,
                self.menu == old(self).menu,
                self.cpu_info == old(self).cpu_info,
            decreases self.message_queue@.len(),
        {
            let ghost prior_state = self.debugger_state;
            let ghost prior_cpu = gameboy.spec_cpu();
            let ghost prior_mem = gameboy.spec_memory();
            let ghost prior_queue = self.message_queue@;
            let ghost prior_requests = rom_requests@;

            let polled = self.message_queue.poll();

            match polled {
                None => {
                    break ;
                },
                Some(message) => {
                    match message {
                        MessageData::LoadRomFromDisk(path) => {
                            rom_requests.push(path);
                        },
                        MessageData::UpdateRunningState(is_running) => {
                            self.debugger_state.is_running = is_running;
                        },
                        MessageData::TickOnce => {
                            self.debugger_state.should_tick_once = true;
                        },
                        MessageData::ResetGameBoy(clear_memory) => {
                            gameboy.reset(clear_memory);

                            if clear_memory {
                                self.debugger_state.is_game_loaded = false;
                            }
                        },
                        MessageData::BreakpointTriggered => {
                            self.debugger_state.is_running = false;
                        },
                    }
                    proof {
                        let head = spec_apply_message(
                            prior_state,
                            prior_cpu,
                            prior_mem,
                            prior_queue[0],
                        );
                        let rest = spec_process_messages(
                            self.debugger_state,
                            gameboy.spec_cpu(),
                            gameboy.spec_memory(),
                            self.message_queue@,
                        );
                        assert(rom_requests@ + rest.3 =~= prior_requests + (head.3 + rest.3));
                    }
                },
            }
        }
        proof {
            let full = spec_process_messages(
                old(self).debugger_state,
                old(gameboy).spec_cpu(),
                old(gameboy).spec_memory(),
                old(self).message_queue@,
            );
            assert(full.3 =~= rom_requests@);
        }
        // Ensure the memory debugger is able to highlight all known
        // breakpoints
        let addresses = self.breakpoints.get_active_breakpoint_addresses();
        self.memory_dump.set_breakpoint_addresses(&addresses);

        rom_requests
    }

    /// Install an already-read cartridge: load it into the GameBoy and
    /// record whether a game is now loaded. This is the answer half of a
    /// `LoadRomFromDisk` request, with the file reading done outside.
    pub fn load_cartridge(&mut self, cartridge: &Cartridge, gameboy: &mut GameBoy) -> (success:
        bool)
        requires
            old(gameboy).wf(),
        ensures
            final(gameboy).wf(),
            success <==> cartridge.spec_data().len() <= MEMORY_SIZE,
            success ==> final(gameboy).spec_memory() == cartridge.spec_data() + old(
                gameboy,
            ).spec_memory().subrange(cartridge.spec_data().len() as int, MEMORY_SIZE as int),
            success ==> final(gameboy).spec_cpu() == spec_initial_cpu(),
            !success ==> final(gameboy).spec_cpu() == old(gameboy).spec_cpu(),
            !success ==> final(gameboy).spec_memory() == old(gameboy).spec_memory(),
            (*final(self) == Debugger {
                debugger_state: GlobalDebuggerState {
                    is_game_loaded: success,
                    ..old(self).debugger_state
                },
                ..*old(self)
            }),
    {
        let success = gameboy.load_cartridge(cartridge);
        self.debugger_state.is_game_loaded = success;
        success
    }
}

} // verus!
