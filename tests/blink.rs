use timer_blink::{
    acknowledge_section, on_timer_event, toggle_section, Controller, OutputHandle, SharedCell,
    TimerHandle,
};

fn output_of(c: &mut Controller) -> Option<OutputHandle> {
    c.output.with_mut(|o| (o, o))
}

fn timer_of(c: &mut Controller) -> Option<TimerHandle> {
    c.timer.with_mut(|t| (t, t))
}

fn started() -> Controller {
    let mut c = Controller::new();
    c.install_output(OutputHandle::new(true));
    c.install_timer(TimerHandle::new());
    c.enable_interrupts();
    c
}

#[test]
fn output_installed_inactive() {
    let mut c = Controller::new();
    c.install_output(OutputHandle::new(true));
    assert_eq!(output_of(&mut c), Some(OutputHandle { active: false }));
}

#[test]
fn parity_follows_event_count() {
    let mut c = started();
    for n in 1..=7u32 {
        c.timer_expired();
        assert_eq!(output_of(&mut c), Some(OutputHandle { active: n % 2 == 1 }));
    }
}

#[test]
fn twenty_events_leave_output_inactive() {
    let mut c = started();
    let mut toggles = 0u32;
    let mut last = output_of(&mut c).unwrap().active;
    for _ in 0..20 {
        c.timer_expired();
        let now = output_of(&mut c).unwrap().active;
        if now != last {
            toggles += 1;
        }
        last = now;
    }
    assert_eq!(toggles, 20);
    assert_eq!(output_of(&mut c), Some(OutputHandle { active: false }));
}

#[test]
fn flag_cleared_after_each_delivery() {
    let mut c = started();
    for _ in 0..3 {
        c.timer_expired();
        assert_eq!(timer_of(&mut c), Some(TimerHandle { pending: false }));
    }
}

#[test]
fn absent_output_left_alone() {
    let mut c = Controller::new();
    c.install_timer(TimerHandle::new());
    c.enable_interrupts();
    c.timer_expired();
    c.timer_expired();
    c.service();
    assert_eq!(output_of(&mut c), None);
    assert_eq!(timer_of(&mut c), Some(TimerHandle { pending: false }));
}

#[test]
fn absent_timer_still_toggles_output() {
    let mut c = Controller::new();
    c.install_output(OutputHandle::new(false));
    c.service();
    assert_eq!(timer_of(&mut c), None);
    assert_eq!(output_of(&mut c), Some(OutputHandle { active: true }));
}

#[test]
fn second_put_is_what_the_first_interrupt_sees() {
    let mut timer = SharedCell::new();
    let mut output = SharedCell::new();
    output.put(OutputHandle::new(true));
    output.put(OutputHandle::new(false));
    timer.put(TimerHandle { pending: true });
    on_timer_event(&mut timer, &mut output);
    assert_eq!(output.with_mut(|o| (o, o)), Some(OutputHandle { active: true }));
    assert_eq!(timer.with_mut(|t| (t, t)), Some(TimerHandle { pending: false }));
}

#[test]
fn expiry_while_disabled_only_raises_flag() {
    let mut c = Controller::new();
    c.install_output(OutputHandle::new(false));
    c.install_timer(TimerHandle::new());
    c.timer_expired();
    assert_eq!(timer_of(&mut c), Some(TimerHandle { pending: true }));
    assert_eq!(output_of(&mut c), Some(OutputHandle { active: false }));
    c.enable_interrupts();
    assert_eq!(timer_of(&mut c), Some(TimerHandle { pending: false }));
    assert_eq!(output_of(&mut c), Some(OutputHandle { active: true }));
}

#[test]
fn enable_without_pending_event_changes_nothing_else() {
    let mut c = Controller::new();
    c.install_output(OutputHandle::new(false));
    c.install_timer(TimerHandle::new());
    c.enable_interrupts();
    assert!(c.interrupts_enabled);
    assert_eq!(output_of(&mut c), Some(OutputHandle { active: false }));
}

#[test]
fn expiry_without_timer_is_no_event() {
    let mut c = Controller::new();
    c.install_output(OutputHandle::new(false));
    c.enable_interrupts();
    c.timer_expired();
    assert_eq!(output_of(&mut c), Some(OutputHandle { active: false }));
    assert!(!c.timer.is_installed());
}

#[test]
fn empty_cell_section_sees_none() {
    let mut cell: SharedCell<OutputHandle> = SharedCell::new();
    assert!(!cell.is_installed());
    let seen = cell.with_mut(|o| (o, o.is_none()));
    assert!(seen);
    cell.put(OutputHandle::new(true));
    assert!(cell.is_installed());
}

#[test]
fn section_bodies() {
    assert_eq!(
        acknowledge_section(Some(TimerHandle { pending: true })),
        (Some(TimerHandle { pending: false }), true)
    );
    assert_eq!(acknowledge_section(None), (None, false));
    assert_eq!(
        toggle_section(Some(OutputHandle { active: true })),
        (Some(OutputHandle { active: false }), Some(false))
    );
    assert_eq!(
        toggle_section(Some(OutputHandle { active: false })),
        (Some(OutputHandle { active: true }), Some(true))
    );
    assert_eq!(toggle_section(None), (None, None));
}

#[test]
fn handle_operations() {
    let mut t = TimerHandle::new();
    assert!(!t.is_pending());
    t.raise();
    assert!(t.is_pending());
    t.acknowledge();
    assert!(!t.is_pending());
    let mut o = OutputHandle::new(false);
    o.activate();
    assert!(o.is_active());
    o.deactivate();
    assert!(!o.is_active());
}
