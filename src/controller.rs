use vstd::prelude::*;

use crate::cell::SharedCell;
use crate::handles::{OutputHandle, TimerHandle};
use crate::isr::{acknowledged, on_timer_event, toggled};

verus! {

/// The two cells shared between the main flow and the interrupt handler,
/// and whether interrupt delivery has been enabled.
pub struct Controller {
    pub timer: SharedCell<TimerHandle>,
    pub output: SharedCell<OutputHandle>,
    pub interrupts_enabled: bool,
}

/// What a `Controller` holds, as plain values.
pub struct ControllerState {
    pub timer: Option<TimerHandle>,
    pub output: Option<OutputHandle>,
    pub interrupts_enabled: bool,
}

impl View for Controller {
    type V = ControllerState;

    open spec fn view(&self) -> ControllerState {
        ControllerState {
            timer: self.timer@,
            output: self.output@,
            interrupts_enabled: self.interrupts_enabled,
        }
    }
}

/// The state after one run of the interrupt handler.
pub open spec fn serviced(s: ControllerState) -> ControllerState {
    ControllerState { timer: acknowledged(s.timer), output: toggled(s.output), ..s }
}

/// The hardware's part of an expiry: an installed timer gets its flag raised.
pub open spec fn raised(t: Option<TimerHandle>) -> Option<TimerHandle> {
    match t {
        Some(_) => Some(TimerHandle { pending: true }),
        None => None,
    }
}

/// The state after one timer expiry. Without an installed timer there is no
/// event. With one, the flag goes up, and where delivery is enabled the
/// handler runs.
pub open spec fn expired(s: ControllerState) -> ControllerState {
    if s.timer is None {
        s
    } else if !s.interrupts_enabled {
        ControllerState { timer: raised(s.timer), ..s }
    } else {
        serviced(ControllerState { timer: raised(s.timer), ..s })
    }
}

/// The state after `n` timer expiries.
pub open spec fn after_expiries(s: ControllerState, n: nat) -> ControllerState
    decreases n,
{
    if n == 0 {
        s
    } else {
        expired(after_expiries(s, (n - 1) as nat))
    }
}

/// The state once delivery is enabled: an event already pending is
/// delivered at once.
pub open spec fn enabled(s: ControllerState) -> ControllerState {
    let on = ControllerState { interrupts_enabled: true, ..s };
    match s.timer {
        Some(t) if t.pending => serviced(on),
        _ => on,
    }
}

/// Toggle parity: once the output is installed inactive, with the timer
/// installed and delivery enabled, after `n` expiries the output is active
/// exactly when `n` is odd, and no event is left pending.
pub proof fn lemma_toggle_parity(s: ControllerState, n: nat)
    requires
        s.interrupts_enabled,
        s.timer is Some,
        s.output == Some(OutputHandle { active: false }),
    ensures
        after_expiries(s, n).output == Some(OutputHandle { active: n % 2 == 1 }),
        after_expiries(s, n).timer is Some,
        after_expiries(s, n).interrupts_enabled,
        n > 0 ==> after_expiries(s, n).timer == Some(TimerHandle { pending: false }),
    decreases n,
{
    if n > 0 {
        lemma_toggle_parity(s, (n - 1) as nat);
    }
}

/// A run of the handler with the timer installed leaves no event pending,
/// whatever the other cell holds.
pub proof fn lemma_service_clears_pending(s: ControllerState)
    requires
        s.timer is Some,
    ensures
        serviced(s).timer == Some(TimerHandle { pending: false }),
{
}

/// Every expiry delivered while a timer is installed ends with its flag
/// cleared, however many came before.
pub proof fn lemma_no_pending_after_delivery(s: ControllerState, n: nat)
    requires
        s.interrupts_enabled,
        s.timer is Some,
        n > 0,
    ensures
        after_expiries(s, n).timer == Some(TimerHandle { pending: false }),
        after_expiries(s, n).interrupts_enabled,
    decreases n,
{
    if n > 1 {
        lemma_no_pending_after_delivery(s, (n - 1) as nat);
    } else {
        assert(after_expiries(s, 0) == s);
    }
}

/// Before the output is installed, any number of expiries leave the output
/// cell empty: the handler does nothing to a line that is not there.
pub proof fn lemma_absent_output_untouched(s: ControllerState, n: nat)
    requires
        s.output is None,
    ensures
        after_expiries(s, n).output is None,
    decreases n,
{
    if n > 0 {
        lemma_absent_output_untouched(s, (n - 1) as nat);
    }
}

/// The handler's two sections are independent: what it does to the timer
/// cell does not depend on the output cell, and what it does to the output
/// cell does not depend on the timer cell. An absent output never stops an
/// acknowledgment, and an absent timer never stops a toggle.
pub proof fn lemma_sections_independent(s1: ControllerState, s2: ControllerState)
    ensures
        s1.timer == s2.timer ==> serviced(s1).timer == serviced(s2).timer,
        s1.output == s2.output ==> serviced(s1).output == serviced(s2).output,
{
}

impl Controller {
    /// Both cells empty, delivery disabled.
    pub fn new() -> (r: Self)
        ensures
            r@.timer is None,
            r@.output is None,
            !r@.interrupts_enabled,
    {
        Controller { timer: SharedCell::new(), output: SharedCell::new(), interrupts_enabled: false }
    }

    /// Drives `output` to its inactive level and moves it into its cell.
    /// Only allowed while delivery is disabled.
    pub fn install_output(&mut self, output: OutputHandle)
        requires
            !old(self)@.interrupts_enabled,
        ensures
            final(self)@ == (ControllerState {
                output: Some(OutputHandle { active: false }),
                ..old(self)@
            }),
    {
        let mut output = output;
        output.deactivate();
        self.output.put(output);
    }

    /// Moves a configured timer into its cell. Only allowed while delivery is
    /// disabled.
    pub fn install_timer(&mut self, timer: TimerHandle)
        requires
            !old(self)@.interrupts_enabled,
        ensures
            final(self)@ == (ControllerState { timer: Some(timer), ..old(self)@ }),
    {
        self.timer.put(timer);
    }

    /// Enables interrupt delivery.
    pub fn enable_interrupts(&mut self)
        ensures
            final(self)@ == enabled(old(self)@),
    {
        self.interrupts_enabled = true;
        let pending = self.timer.with_mut(peek_pending);
        if pending {
            on_timer_event(&mut self.timer, &mut self.output);
        }
    }

    /// One run of the interrupt handler.
    pub fn service(&mut self)
        ensures
            final(self)@ == serviced(old(self)@),
    {
        on_timer_event(&mut self.timer, &mut self.output);
    }

    /// One timer expiry.
    pub fn timer_expired(&mut self)
        ensures
            final(self)@ == expired(old(self)@),
    {
        let present = self.timer.with_mut(raise_section);
        if present && self.interrupts_enabled {
            on_timer_event(&mut self.timer, &mut self.output);
        }
    }
}

/// Section body that reads the pending flag and leaves the cell as it was.
fn peek_pending(t: Option<TimerHandle>) -> (r: (Option<TimerHandle>, bool))
    ensures
        r.0 == t,
        r.1 == (match t {
            Some(h) => h.pending,
            None => false,
        }),
{
    match t {
        Some(h) => (Some(h), h.is_pending()),
        None => (None, false),
    }
}

/// Section body for the hardware's side of an expiry.
fn raise_section(t: Option<TimerHandle>) -> (r: (Option<TimerHandle>, bool))
    ensures
        r.0 == raised(t),
        r.1 == t is Some,
{
    match t {
        Some(mut h) => {
            h.raise();
            (Some(h), true)
        },
        None => (None, false),
    }
}

} // verus!
