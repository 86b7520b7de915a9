//! The whole device: a CPU and its memory, constructed together, driven one
//! instruction at a time by an external caller, inspected between ticks
//! through read-only accessors.

use vstd::prelude::*;

use crate::cartridge::Cartridge;
use crate::cpu::{spec_initial_cpu, spec_step_effect, Cpu, TickResult};
use crate::memory::{Memory, MEMORY_SIZE};

verus! {

/// Represents a GameBoy device.
pub struct GameBoy {
    cpu: Cpu,
    memory: Memory,
}

impl GameBoy {
    /// The CPU state as seen by the specifications.
    pub closed spec fn spec_cpu(&self) -> Cpu {
        self.cpu
    }

    /// The memory contents as seen by the specifications.
    pub closed spec fn spec_memory(&self) -> Seq<u8> {
        self.memory@
    }

    /// A device is well-formed when its memory holds exactly 2^16 bytes.
    pub open spec fn wf(&self) -> bool {
        self.spec_memory().len() == MEMORY_SIZE
    }

    /// Create a new GameBoy instance: a freshly reset CPU and an all-zero
    /// memory.
    pub fn new() -> (r: Self)
        ensures
            r.wf(),
            r.spec_cpu() == spec_initial_cpu(),
            r.spec_memory() == Seq::new(MEMORY_SIZE as nat, |i: int| 0u8),
    {
        Self { cpu: Cpu::new(), memory: Memory::new() }
    }

    /// Execute the next instruction; the effect on the CPU and on memory is
    /// pinned down by `spec_step_effect`.
    pub fn tick(&mut self) -> (r: TickResult)
        requires
            old(self).wf(),
        ensures
            final(self).wf(),
            spec_step_effect(
                old(self).spec_cpu(),
                old(self).spec_memory(),
                final(self).spec_cpu(),
                final(self).spec_memory(),
                r,
            ),
    {
        self.cpu.tick(&mut self.memory)
    }

    /// Reset the GameBoy: the CPU returns to its initial state, and the
    /// memory is cleared to zero only when asked.
    pub fn reset(&mut self, clear_memory: bool)
        requires
            old(self).wf(),
        ensures
            final(self).wf(),
            final(self).spec_cpu() == spec_initial_cpu(),
            final(self).spec_memory() == if clear_memory {
                Seq::new(MEMORY_SIZE as nat, |i: int| 0u8)
            } else {
                old(self).spec_memory()
            },
    {
        self.cpu.reset();

        if clear_memory {
            self.memory = Memory::new();
        }
    }

    /// Use this to read the state of the GameBoy's CPU.
    pub fn get_cpu_readonly(&self) -> (r: &Cpu)
        ensures
            *r == self.spec_cpu(),
    {
        &self.cpu
    }

    /// Use this to read the state of the GameBoy's memory.
    pub fn get_memory_readonly(&self) -> (r: &Memory)
        ensures
            r@ == self.spec_memory(),
    {
        &self.memory
    }

    /// Load a cartridge into memory at address 0x0000 and reset the CPU to
    /// its initial state. Returns true on success; a cartridge larger than
    /// the memory is refused and nothing changes.
    pub fn load_cartridge(&mut self, cartridge: &Cartridge) -> (success: bool)
        requires
            old(self).wf(),
        ensures
            final(self).wf(),
            success <==> cartridge.spec_data().len() <= MEMORY_SIZE,
            success ==> final(self).spec_memory() == cartridge.spec_data() + old(
                self,
            ).spec_memory().subrange(cartridge.spec_data().len() as int, MEMORY_SIZE as int),
            success ==> final(self).spec_cpu() == spec_initial_cpu(),
            !success ==> final(self).spec_cpu() == old(self).spec_cpu(),
            !success ==> final(self).spec_memory() == old(self).spec_memory(),
    {
        let loaded = self.memory.copy_into_memory_at_address(0x0000, cartridge.get_data());

        match loaded {
            Ok(()) => {
                proof {
                    assert(self.memory@ =~= cartridge.spec_data() + old(
                        self,
                    ).spec_memory().subrange(
                        cartridge.spec_data().len() as int,
                        MEMORY_SIZE as int,
                    ));
                }
                self.cpu.reset();
                true
            },
            Err(_) => false,
        }
    }
}

} // verus!
