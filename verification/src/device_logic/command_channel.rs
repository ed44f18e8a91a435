//! The command channel: a single slot that carries the requested operating
//! mode from the command producer to the control loop. A new request replaces
//! one that has not been consumed yet.

use vstd::prelude::*;

verus! {

/// The profiles that can be asked for.
#[derive(Clone, Copy, Debug, PartialEq, Eq, Structural)]
pub enum ReflowMode {
    JEDEC,
}

/// What the command producer asks of the control loop.
#[derive(Clone, Copy, Debug, PartialEq, Eq, Structural)]
pub enum RequestedMode {
    Off,
    On(ReflowMode),
}

/// The mode that a one-byte selection code stands for: `1` is the JEDEC
/// profile; `0`, and every code that is not assigned, is `Off`.
pub open spec fn requested_mode_of(code: u8) -> RequestedMode {
    if code == 1 {
        RequestedMode::On(ReflowMode::JEDEC)
    } else {
        RequestedMode::Off
    }
}

/// What a command channel holds.
pub struct CommandSlot {
    /// The request that has not been consumed yet.
    pub pending: Option<RequestedMode>,
}

impl CommandSlot {
    /// After `mode` was requested. An unread request is gone.
    pub open spec fn requested(self, mode: RequestedMode) -> CommandSlot {
        CommandSlot { pending: Some(mode) }
    }

    /// After the control loop consumed what was pending.
    pub open spec fn consumed(self) -> CommandSlot {
        CommandSlot { pending: None }
    }
}

pub struct CommandChannel {
    pending: Option<RequestedMode>,
}

impl View for CommandChannel {
    type V = CommandSlot;

    closed spec fn view(&self) -> CommandSlot {
        CommandSlot { pending: self.pending }
    }
}

impl CommandChannel {
    /// A channel with nothing pending.
    pub fn new() -> (channel: Self)
        ensures
            channel@.pending is None,
    {
        CommandChannel { pending: None }
    }

    /// Leaves `mode` for the control loop, in place of any request that is
    /// still unread.
    pub fn request(&mut self, mode: RequestedMode)
        ensures
            final(self)@ == old(self)@.requested(mode),
    {
        self.pending = Some(mode);
    }

    /// Whether a request waits. Nothing is consumed.
    pub fn has_pending(&self) -> (waiting: bool)
        ensures
            waiting == self@.pending is Some,
    {
        self.pending.is_some()
    }

    /// Consumes the pending request. `None` means that nothing was pending:
    /// the caller suspends until the next `request` and asks again.
    pub fn take_request(&mut self) -> (request: Option<RequestedMode>)
        ensures
            request == old(self)@.pending,
            final(self)@ == old(self)@.consumed(),
    {
        let request = self.pending;
        self.pending = None;
        request
    }
}

/// Of two requests made before the control loop consumes either, only the
/// second is ever delivered: it is what is pending, whatever was pending
/// before, and once it has been consumed nothing is left.
pub proof fn law_later_request_supersedes(
    slot: CommandSlot,
    first: RequestedMode,
    second: RequestedMode,
)
    ensures
        slot.requested(first).requested(second).pending == Some(second),
        slot.requested(first).requested(second) == slot.requested(second),
        slot.requested(first).requested(second).consumed().pending is None,
{
}

} // verus!
