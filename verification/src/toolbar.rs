//! State behind the debugger's toolbar (run/pause/step/reset controls).
//! Drawing the controls is a front-end concern; the core only owns the one
//! setting the toolbar remembers between frames.

use vstd::prelude::*;

verus! {

/// Toolbar state: whether a requested CPU reset should also clear memory.
pub struct Toolbar {
    /// When true, a reset requested from the toolbar also clears memory.
    pub clear_memory_on_cpu_reset: bool,
}

impl Default for Toolbar {
    /// A fresh toolbar: resets do not clear memory.
    fn default() -> (r: Self)
        ensures
            !r.clear_memory_on_cpu_reset,
    {
        Self { clear_memory_on_cpu_reset: false }
    }
}

} // verus!
