//! A simple first-in-first-out message queue: the channel through which a
//! front-end injects control commands (load, run/pause, single-step, reset)
//! into the debugger.

use vstd::prelude::*;

verus! {

/// Contains a single message's data.
pub enum MessageData {
    /// Ask for the ROM at this path to be loaded; reading the file is the
    /// surrounding driver's business.
    LoadRomFromDisk(String),
    /// Pause (false) or resume (true) continuous execution.
    UpdateRunningState(bool),
    /// Execute exactly one instruction, then pause again.
    TickOnce,
    /// Reset the GameBoy, optionally clearing its memory.
    ResetGameBoy(bool),
    /// A breakpoint was hit; continuous execution must pause.
    BreakpointTriggered,
}

/// Simple message queue to trigger various actions within the debugger.
///
/// Please note that this object is not thread-safe. It simply wraps a
/// [`VecDeque`].
pub struct MessageQueue {
    messages: std::collections::VecDeque<MessageData>,
}

impl View for MessageQueue {
    type V = Seq<MessageData>;

    closed spec fn view(&self) -> Seq<MessageData> {
        self.messages@
    }
}

impl Default for MessageQueue {
    /// An empty queue.
    fn default() -> (r: Self)
        ensures
            r@ == Seq::<MessageData>::empty(),
    {
        Self { messages: std::collections::VecDeque::new() }
    }
}

impl MessageQueue {
    /// Push a message onto the back of the queue.
    pub fn push(&mut self, message: MessageData)
        ensures
            final(self)@ == old(self)@.push(message),
    {
        self.messages.push_back(message);
    }

    /// Poll the queue and pop the oldest message if available.
    pub fn poll(&mut self) -> (r: Option<MessageData>)
        ensures
            old(self)@.len() == 0 ==> r is None && final(self)@ == old(self)@,
            old(self)@.len() > 0 ==> r == Some(old(self)@[0]) && final(self)@ == old(
                self,
            )@.drop_first(),
    {
        self.messages.pop_front()
    }
}

} // verus!
