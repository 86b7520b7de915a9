//! Breakpoints: named addresses that pause continuous execution when the
//! program counter reaches them. The panel that draws them is a front-end
//! concern; the bookkeeping below - which addresses are active, whether a
//! new breakpoint may be added, and when a breakpoint fires - is core
//! logic.

use vstd::prelude::*;

use crate::gameboy::GameBoy;
use crate::message_queue::{MessageData, MessageQueue};

verus! {

/// Contains information about a single breakpoint.
pub struct Breakpoint {
    /// Free-text label shown beside the breakpoint.
    pub label: String,
    /// The address being watched.
    pub address: u16,
    /// Last known byte of memory at that address.
    pub value: u8,
    /// How often the breakpoint has fired.
    pub invocation_count: usize,
    /// Only enabled breakpoints fire.
    pub is_enabled: bool,
}

impl Breakpoint {
    /// Create a new [`Breakpoint`]: enabled, never fired, shadow value 0.
    pub fn new(label: &str, address: u16) -> (r: Self)
        ensures
            r.label@ == label@,
            r.address == address,
            r.value == 0,
            r.invocation_count == 0,
            r.is_enabled,
    {
        Self { label: label.to_owned(), address, value: 0, invocation_count: 0, is_enabled: true }
    }
}

/// Whether a breakpoint fires: the program counter sits on its address,
/// continuous execution is on, and the breakpoint is enabled.
pub open spec fn spec_triggers(b: Breakpoint, pc: u16, is_running: bool) -> bool {
    b.address == pc && is_running && b.is_enabled
}

/// A breakpoint brought up to date against the current machine state: its
/// shadow value re-read from memory, and its invocation count bumped
/// exactly when it fires.
pub open spec fn spec_refreshed(b: Breakpoint, mem: Seq<u8>, pc: u16, is_running: bool) -> Breakpoint {
    Breakpoint {
        value: mem[b.address as int],
        invocation_count: if spec_triggers(b, pc, is_running) {
            if b.invocation_count == usize::MAX {
                0
            } else {
                (b.invocation_count + 1) as usize
            }
        } else {
            b.invocation_count
        },
        ..b
    }
}

/// One `BreakpointTriggered` message for each breakpoint of `s` that
/// fires, in order.
pub open spec fn spec_trigger_messages(s: Seq<Breakpoint>, pc: u16, is_running: bool) -> Seq<
    MessageData,
>
    decreases s.len(),
{
    if s.len() == 0 {
        Seq::empty()
    } else {
        spec_trigger_messages(s.drop_last(), pc, is_running) + (if spec_triggers(
            s.last(),
            pc,
            is_running,
        ) {
            seq![MessageData::BreakpointTriggered]
        } else {
            Seq::<MessageData>::empty()
        })
    }
}

/// The addresses of the enabled breakpoints of `s`, in order.
pub open spec fn spec_active_addresses(s: Seq<Breakpoint>) -> Seq<u16>
    decreases s.len(),
{
    if s.len() == 0 {
        Seq::empty()
    } else {
        spec_active_addresses(s.drop_last()) + (if s.last().is_enabled {
            seq![s.last().address]
        } else {
            Seq::<u16>::empty()
        })
    }
}

/// The breakpoint collection, together with the text-input scratch state of
/// the panel that edits it.
pub struct Breakpoints {
    /// Scratch text for the label of the breakpoint being created.
    pub breakpoint_label_input: String,
    /// Scratch text for the address of the breakpoint being created.
    pub breakpoint_address_input: String,
    /// The breakpoints themselves.
    pub breakpoints: Vec<Breakpoint>,
}

impl Default for Breakpoints {
    /// No breakpoints, empty input fields.
    fn default() -> (r: Self)
        ensures
            r.breakpoints@ == Seq::<Breakpoint>::empty(),
            r.breakpoint_label_input@ == Seq::<char>::empty(),
            r.breakpoint_address_input@ == Seq::<char>::empty(),
    {
        proof {
            reveal_strlit("");
        }
        Self {
            breakpoints: Vec::new(),
            breakpoint_label_input: "".to_owned(),
            breakpoint_address_input: "".to_owned(),
        }
    }
}

impl Breakpoints {
    /// Get the addresses of all currently active (enabled) breakpoints.
    pub fn get_active_breakpoint_addresses(&self) -> (r: Vec<u16>)
        ensures
            r@ == spec_active_addresses(self.breakpoints@),
    {
        let mut addresses: Vec<u16> = Vec::new();
        let mut index: usize = 0;

        while index < self.breakpoints.len()
            invariant
                index <= self.breakpoints@.len(),
                addresses@ == spec_active_addresses(self.breakpoints@.take(index as int)),
            decreases self.breakpoints@.len() - index,
        {
            proof {
                let taken = self.breakpoints@.take(index as int + 1);
                assert(taken.drop_last() =~= self.breakpoints@.take(index as int));
                assert(taken.last() == self.breakpoints@[index as int]);
            }
            if self.breakpoints[index].is_enabled {
                addresses.push(self.breakpoints[index].address);
            }
            index = index + 1;
        }
        proof {
            assert(self.breakpoints@.take(self.breakpoints@.len() as int) =~= self.breakpoints@);
        }
        addresses
    }

    /// Returns true if no breakpoint has been set at the given address.
    pub fn is_new_breakpoint_allowed(&self, address: u16) -> (r: bool)
        ensures
            r == forall|i: int|
                0 <= i < self.breakpoints@.len() ==> (#[trigger] self.breakpoints@[i]).address
                    != address,
    {
        let mut index: usize = 0;

        while index < self.breakpoints.len()
            invariant
                index <= self.breakpoints@.len(),
                forall|i: int|
                    0 <= i < index ==> (#[trigger] self.breakpoints@[i]).address != address,
            decreases self.breakpoints@.len() - index,
        {
            if self.breakpoints[index].address == address {
                return false;
            }
            index = index + 1;
        }
        true
    }

    /// Add a breakpoint, unless one already watches the same address.
    /// Returns whether the breakpoint was added.
    pub fn add_breakpoint(&mut self, breakpoint: Breakpoint) -> (added: bool)
        ensures
            added == forall|i: int|
                0 <= i < old(self).breakpoints@.len() ==> (#[trigger] old(
                    self,
                ).breakpoints@[i]).address != breakpoint.address,
            added ==> final(self).breakpoints@ == old(self).breakpoints@.push(breakpoint),
            !added ==> final(self).breakpoints@ == old(self).breakpoints@,
            final(self).breakpoint_label_input == old(self).breakpoint_label_input,
            final(self).breakpoint_address_input == old(self).breakpoint_address_input,
    {
        if self.is_new_breakpoint_allowed(breakpoint.address) {
            self.breakpoints.push(breakpoint);
            true
        } else {
            false
        }
    }

    /// Bring every breakpoint up to date against the current machine state:
    /// re-read each shadow value from memory, and for every breakpoint that
    /// fires (the program counter sits on its address while continuous
    /// execution is on), bump its invocation count and post a
    /// `BreakpointTriggered` message.
    pub fn refresh_from_gameboy(
        &mut self,
        message_queue: &mut MessageQueue,
        gameboy: &GameBoy,
        is_running: bool,
    )
        requires
            gameboy.wf(),
        ensures
            final(self).breakpoints@.len() == old(self).breakpoints@.len(),
            forall|i: int|
                0 <= i < old(self).breakpoints@.len() ==> final(self).breakpoints@[i]
                    == spec_refreshed(
                    #[trigger] old(self).breakpoints@[i],
                    gameboy.spec_memory(),
                    gameboy.spec_cpu().program_counter,
                    is_running,
                ),
            final(message_queue)@ == old(message_queue)@ + spec_trigger_messages(
                old(self).breakpoints@,
                gameboy.spec_cpu().program_counter,
                is_running,
            ),
            final(self).breakpoint_label_input == old(self).breakpoint_label_input,
            final(self).breakpoint_address_input == old(self).breakpoint_address_input,
    {
        let ghost mem = gameboy.spec_memory();
        let ghost pc_ghost = gameboy.spec_cpu().program_counter;
        let pc = gameboy.get_cpu_readonly().get_program_counter();
        let mut index: usize = 0;

        while index < self.breakpoints.len()
            invariant
                gameboy.wf(),
                mem == gameboy.spec_memory(),
                pc == pc_ghost,
                pc_ghost == gameboy.spec_cpu().program_counter,
                index <= self.breakpoints@.len(),
                self.breakpoints@.len() == old(self).breakpoints@.len(),
                forall|i: int|
                    0 <= i < index ==> self.breakpoints@[i] == spec_refreshed(
                        #[trigger] old(self).breakpoints@[i],
                        mem,
                        pc_ghost,
                        is_running,
                    ),
                forall|i: int|
                    index <= i < self.breakpoints@.len() ==> self.breakpoints@[i] == old(
                        self,
                    ).breakpoints@[i],
                message_queue@ == old(message_queue)@ + spec_trigger_messages(
                    old(self).breakpoints@.take(index as int),
                    pc_ghost,
                    is_running,
                ),
                self.breakpoint_label_input == old(self).breakpoint_label_input,
                self.breakpoint_address_input == old(self).breakpoint_address_input,
            decreases self.breakpoints@.len() - index,
        {
            proof {
                let taken = old(self).breakpoints@.take(index as int + 1);
                assert(taken.drop_last() =~= old(self).breakpoints@.take(index as int));
                assert(taken.last() == old(self).breakpoints@[index as int]);
            }
            let address = self.breakpoints[index].address;
            let enabled = self.breakpoints[index].is_enabled;

            // Memory may have updated - ensure the breakpoint shows the
            // same value it would read now
            let current_value = gameboy.get_memory_readonly().read_byte_at(address);
            self.breakpoints[index].value = current_value;

            // If the next instruction is a breakpoint, execution needs to
            // pause until the user has acted
            if pc == address && is_running && enabled {
                let count = self.breakpoints[index].invocation_count;
                self.breakpoints[index].invocation_count = if count == usize::MAX {
                    0
                } else {
                    count + 1
                };
                message_queue.push(MessageData::BreakpointTriggered);
            }
            proof {
                assert(message_queue@ =~= old(message_queue)@ + spec_trigger_messages(
                    old(self).breakpoints@.take(index as int + 1),
                    pc_ghost,
                    is_running,
                ));
            }
            index = index + 1;
        }
        proof {
            assert(old(self).breakpoints@.take(old(self).breakpoints@.len() as int) =~= old(
                self,
            ).breakpoints@);
        }
    }
}

} // verus!
