//! An output line toggled by a periodic timer interrupt, with each hardware
//! handle held in a cell that the main flow and the interrupt handler reach
//! only through an exclusive section.

mod cell;
mod controller;
mod handles;
mod isr;

pub use cell::SharedCell;
pub use controller::{
    after_expiries, enabled, expired, lemma_absent_output_untouched, lemma_no_pending_after_delivery,
    lemma_sections_independent, lemma_service_clears_pending, lemma_toggle_parity, raised, serviced,
    Controller, ControllerState,
};
pub use handles::{OutputHandle, TimerHandle};
pub use isr::{acknowledge_section, acknowledged, on_timer_event, toggle_section, toggled};
