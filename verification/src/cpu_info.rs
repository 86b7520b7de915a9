//! State behind the debugger's CPU inspection panel (registers, flags and
//! interrupt bits). The panel only observes CPU state through the read-only
//! accessors and holds no state of its own; drawing it is a front-end
//! concern.

use vstd::prelude::*;

verus! {

/// CPU inspection panel.
pub struct CpuInfo {}

impl Default for CpuInfo {
    /// The panel holds no state.
    fn default() -> (r: Self)
        ensures
            true,
    {
        Self {}
    }
}

} // verus!
