//! The emulator: a GameBoy together with its debugger. A front-end drives
//! the pair once per frame - let the debugger drain its queue, tick the
//! device if the debugger allows it, then draw.

use vstd::prelude::*;

use crate::debugger::Debugger;
use crate::gameboy::GameBoy;
use crate::message_queue::MessageData;

verus! {

/// GameBoy emulator and debugger.
pub struct Emulator {
    /// The device.
    pub gameboy: GameBoy,
    /// Its debugger.
    pub debugger: Debugger,
}

impl Emulator {
    /// Create a new Emulator: a fresh GameBoy and a fresh debugger.
    pub fn new() -> (r: Self)
        ensures
            r.gameboy.wf(),
            r.gameboy.spec_cpu() == crate::cpu::spec_initial_cpu(),
            r.debugger.message_queue@ == Seq::<MessageData>::empty(),
            r.debugger.debugger_state.is_game_loaded == false,
    {
        Self { gameboy: GameBoy::new(), debugger: Debugger::new() }
    }
}

} // verus!
