//! State behind the debugger's window menu bar. The menu holds no state of
//! its own; drawing it is a front-end concern.

use vstd::prelude::*;

verus! {

/// Debugger window menu bar.
pub struct MenuBar {}

impl Default for MenuBar {
    /// The menu bar holds no state.
    fn default() -> (r: Self)
        ensures
            true,
    {
        Self {}
    }
}

} // verus!
