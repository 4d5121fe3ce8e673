use vstd::prelude::*;

use crate::cell::SharedCell;
use crate::handles::{OutputHandle, TimerHandle};

verus! {

/// The timer slot after the acknowledging section: an installed timer has its
/// flag cleared, an empty slot stays empty.
pub open spec fn acknowledged(t: Option<TimerHandle>) -> Option<TimerHandle> {
    match t {
        Some(_) => Some(TimerHandle { pending: false }),
        None => None,
    }
}

/// The output slot after the toggling section: an installed line takes the
/// inverted level, an empty slot stays empty.
pub open spec fn toggled(o: Option<OutputHandle>) -> Option<OutputHandle> {
    match o {
        Some(h) => Some(OutputHandle { active: !h.active }),
        None => None,
    }
}

/// The body of the acknowledging section. Returns the new contents and
/// whether a timer was there to acknowledge.
pub fn acknowledge_section(t: Option<TimerHandle>) -> (r: (Option<TimerHandle>, bool))
    ensures
        r.0 == acknowledged(t),
        r.1 == t is Some,
{
    match t {
        Some(mut h) => {
            h.acknowledge();
            (Some(h), true)
        },
        None => (None, false),
    }
}

/// The body of the toggling section. Returns the new contents and the level
/// now driven on the line, if one is installed.
pub fn toggle_section(o: Option<OutputHandle>) -> (r: (Option<OutputHandle>, Option<bool>))
    ensures
        r.0 == toggled(o),
        r.1 == (match o {
            Some(h) => Some(!h.active),
            None => None,
        }),
{
    match o {
        Some(mut h) => {
            if h.is_active() {
                h.deactivate();
            } else {
                h.activate();
            }
            let level = h.is_active();
            (Some(h), Some(level))
        },
        None => (None, None),
    }
}

/// The interrupt handler: one section on the timer cell, then an independent
/// one on the output cell. Neither an empty cell nor the other section's
/// outcome stops the other from running.
pub fn on_timer_event(timer: &mut SharedCell<TimerHandle>, output: &mut SharedCell<OutputHandle>)
    ensures
        final(timer)@ == acknowledged(old(timer)@),
        final(output)@ == toggled(old(output)@),
{
    let _ = timer.with_mut(acknowledge_section);
    let _ = output.with_mut(toggle_section);
}

} // verus!
