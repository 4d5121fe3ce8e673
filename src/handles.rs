use vstd::prelude::*;

verus! {

/// The timer as the interrupt logic sees it: its pending-event flag, set by
/// the hardware on expiry and cleared only by an acknowledgment.
#[derive(Clone, Copy, Debug, PartialEq, Eq, Structural)]
pub struct TimerHandle {
    pub pending: bool,
}

/// One digital output line and its level.
#[derive(Clone, Copy, Debug, PartialEq, Eq, Structural)]
pub struct OutputHandle {
    pub active: bool,
}

impl TimerHandle {
    /// A configured timer with no event pending.
    pub fn new() -> (r: Self)
        ensures
            !r.pending,
    {
        TimerHandle { pending: false }
    }

    /// Whether an expiry is waiting to be acknowledged.
    pub fn is_pending(&self) -> (r: bool)
        ensures
            r == self.pending,
    {
        self.pending
    }

    /// The hardware's side of an expiry: the pending flag goes up.
    pub fn raise(&mut self)
        ensures
            final(self).pending,
    {
        self.pending = true;
    }

    /// Clears the pending-event flag.
    pub fn acknowledge(&mut self)
        ensures
            !final(self).pending,
    {
        self.pending = false;
    }
}

impl OutputHandle {
    /// A line at the given level.
    pub fn new(active: bool) -> (r: Self)
        ensures
            r.active == active,
    {
        OutputHandle { active }
    }

    pub fn is_active(&self) -> (r: bool)
        ensures
            r == self.active,
    {
        self.active
    }

    pub fn activate(&mut self)
        ensures
            final(self).active,
    {
        self.active = true;
    }

    pub fn deactivate(&mut self)
        ensures
            !final(self).active,
    {
        self.active = false;
    }
}

} // verus!
