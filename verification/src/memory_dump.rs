//! State behind the debugger's memory inspection panel: the list of
//! breakpoint addresses it highlights. Drawing the hex dump is a front-end
//! concern.

use vstd::prelude::*;

verus! {

/// Memory inspection panel state.
pub struct MemoryDump {
    breakpoint_addresses: Vec<u16>,
}

impl MemoryDump {
    /// The highlighted breakpoint addresses as seen by the specifications.
    pub closed spec fn spec_breakpoint_addresses(&self) -> Seq<u16> {
        self.breakpoint_addresses@
    }

    /// Update the internal list of known breakpoint addresses.
    pub fn set_breakpoint_addresses(&mut self, addresses: &Vec<u16>)
        ensures
            final(self).spec_breakpoint_addresses() == addresses@,
    {
        let mut copied: Vec<u16> = Vec::new();
        let mut index: usize = 0;

        while index < addresses.len()
            invariant
                index <= addresses@.len(),
                copied@ == addresses@.take(index as int),
            decreases addresses@.len() - index,
        {
            copied.push(addresses[index]);
            proof {
                assert(copied@ =~= addresses@.take(index as int + 1));
            }
            index = index + 1;
        }
        proof {
            assert(addresses@.take(addresses@.len() as int) =~= addresses@);
        }
        self.breakpoint_addresses = copied;
    }
}

impl Default for MemoryDump {
    /// A fresh panel highlights nothing.
    fn default() -> (r: Self)
        ensures
            r.spec_breakpoint_addresses() == Seq::<u16>::empty(),
    {
        Self { breakpoint_addresses: Vec::new() }
    }
}

} // verus!
