use vstd::prelude::*;
use crate::trigger::SourceTriggerProvider;

verus! {

/// A command for a source task. Delivered through that source's own
/// latest-value slot: a newer command overwrites an unread older one.
///
/// `SetTrigger(Some(..))` both (re)configures the trigger and must be the
/// first command a source task receives; `SetTrigger(None)` is invalid as a
/// steady-state command and is refused by contract.
#[derive(Clone, Copy, Debug)]
pub enum SourceCmd {
    /// Keep polling (leaves a pause).
    Run,
    /// Stop polling until a different command arrives.
    Pause,
    /// Terminate the source task.
    Stop,
    /// Replace the trigger configuration in place.
    SetTrigger(Option<SourceTriggerProvider>),
}

/// A command for an output task, delivered through that output's own
/// latest-value slot.
#[derive(Clone, Copy, PartialEq, Eq, Structural, Debug)]
pub enum OutputCmd {
    /// Keep consuming batches (leaves a pause).
    Run,
    /// Stop consuming until a different command arrives.
    Pause,
    /// Terminate the output task.
    Stop,
}

/// A latest-value command slot: the one channel between the controller and a
/// single task.
///
/// A send overwrites the held value — commands never queue, so a rapid
/// sequence of commands may be coalesced and a consumer only ever observes
/// the newest one. This lossiness is deliberate: a task that reads `Stop`
/// right after `Pause` was overwritten must behave as if it had only been
/// told to stop. The change flag plays the part of the wake-up a live
/// channel would deliver.
#[derive(Clone, Copy, Debug)]
pub struct CommandSlot<T> {
    current: T,
    changed: bool,
}

impl<T: Copy> CommandSlot<T> {
    /// The command the slot holds now.
    pub closed spec fn value(self) -> T {
        self.current
    }

    /// Whether a command was sent since the consumer last read the slot.
    pub closed spec fn is_changed(self) -> bool {
        self.changed
    }

    /// A slot holding `initial`, which the consumer is not yet considered to
    /// have missed: the flag is clear, but the value can be read at once.
    pub fn new(initial: T) -> (s: Self)
        ensures
            s.value() == initial,
            !s.is_changed(),
    {
        CommandSlot { current: initial, changed: false }
    }

    /// Overwrites the slot with `command` — the previous value is gone,
    /// whether or not the consumer had read it — and raises the change flag.
    pub fn send(&mut self, command: T)
        ensures
            final(self).value() == command,
            final(self).is_changed(),
    {
        self.current = command;
        self.changed = true;
    }

    /// Whether a command arrived since the last `borrow_and_update`.
    pub fn has_changed(&self) -> (r: bool)
        ensures
            r == self.is_changed(),
    {
        self.changed
    }

    /// Reads the current command without acknowledging it.
    pub fn borrow(&self) -> (r: T)
        ensures
            r == self.value(),
    {
        self.current
    }

    /// Reads the current command and acknowledges it: the change flag is
    /// cleared, the value stays.
    pub fn borrow_and_update(&mut self) -> (r: T)
        ensures
            r == old(self).value(),
            final(self).value() == old(self).value(),
            !final(self).is_changed(),
    {
        self.changed = false;
        self.current
    }
}

} // verus!
