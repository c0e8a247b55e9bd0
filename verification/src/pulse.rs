use vstd::prelude::*;
use crate::action::Action;

verus! {

/// Half period of the plain blinker, in milliseconds.
pub const BLINK_MS: u32 = 300;
/// Pause after a button press, which also swallows contact bounce, in milliseconds.
pub const DEBOUNCE_MS: u32 = 80;
/// The short and the long phase of the panic signal, in milliseconds.
pub const PANIC_SHORT_MS: u32 = 150;
pub const PANIC_LONG_MS: u32 = 900;

/// One round of the plain blinker.
pub open spec fn blinky_actions() -> Seq<Action> {
    seq![Action::ToggleLed, Action::DelayMs(BLINK_MS)]
}

/// The button interrupt: on a pending button edge the LED toggles, the
/// firmware pauses, and the edge is acknowledged; otherwise nothing happens.
pub open spec fn button_actions(pending: bool) -> Seq<Action> {
    if pending {
        seq![Action::ToggleLed, Action::DelayMs(DEBOUNCE_MS), Action::ClearInterrupt]
    } else {
        Seq::empty()
    }
}

/// The timer interrupt: wait for the update event, toggle the LED, acknowledge.
pub open spec fn timer_actions() -> Seq<Action> {
    seq![Action::WaitTimer, Action::ToggleLed, Action::ClearInterrupt]
}

/// One round of the panic signal on a toggled LED: a short and a long phase,
/// preceded by the panic message where the program has a serial port.
pub open spec fn panic_toggle_actions(report: bool) -> Seq<Action> {
    let blink = seq![
        Action::ToggleLed,
        Action::DelayMs(PANIC_SHORT_MS),
        Action::ToggleLed,
        Action::DelayMs(PANIC_LONG_MS),
    ];
    if report {
        seq![Action::ReportPanic] + blink
    } else {
        blink
    }
}

/// One round of the panic signal on a driven LED: the message, the pin low for
/// the short phase, high for the long phase.
pub open spec fn panic_drive_actions() -> Seq<Action> {
    seq![
        Action::ReportPanic,
        Action::DriveLed(false),
        Action::DelayMs(PANIC_SHORT_MS),
        Action::DriveLed(true),
        Action::DelayMs(PANIC_LONG_MS),
    ]
}

/// One round of the plain blinker.
pub fn blinky_cycle() -> (acts: Vec<Action>)
    ensures
        acts@ == blinky_actions(),
{
    let acts = vec![Action::ToggleLed, Action::DelayMs(BLINK_MS)];
    assert(acts@ =~= blinky_actions());
    acts
}

/// What the button interrupt does, given whether its pin reports a pending edge.
pub fn button_interrupt(pending: bool) -> (acts: Vec<Action>)
    ensures
        acts@ == button_actions(pending),
{
    if pending {
        let acts = vec![Action::ToggleLed, Action::DelayMs(DEBOUNCE_MS), Action::ClearInterrupt];
        assert(acts@ =~= button_actions(pending));
        acts
    } else {
        let acts = Vec::new();
        assert(acts@ =~= button_actions(pending));
        acts
    }
}

/// What the timer interrupt does.
pub fn timer_interrupt() -> (acts: Vec<Action>)
    ensures
        acts@ == timer_actions(),
{
    let acts = vec![Action::WaitTimer, Action::ToggleLed, Action::ClearInterrupt];
    assert(acts@ =~= timer_actions());
    acts
}

/// One round of the panic signal on a toggled LED.
pub fn panic_toggle_cycle(report: bool) -> (acts: Vec<Action>)
    ensures
        acts@ == panic_toggle_actions(report),
{
    let mut acts = Vec::new();
    if report {
        acts.push(Action::ReportPanic);
    }
    acts.push(Action::ToggleLed);
    acts.push(Action::DelayMs(PANIC_SHORT_MS));
    acts.push(Action::ToggleLed);
    acts.push(Action::DelayMs(PANIC_LONG_MS));
    assert(acts@ =~= panic_toggle_actions(report));
    acts
}

/// One round of the panic signal on a driven LED.
pub fn panic_drive_cycle() -> (acts: Vec<Action>)
    ensures
        acts@ == panic_drive_actions(),
{
    let acts = vec![
        Action::ReportPanic,
        Action::DriveLed(false),
        Action::DelayMs(PANIC_SHORT_MS),
        Action::DriveLed(true),
        Action::DelayMs(PANIC_LONG_MS),
    ];
    assert(acts@ =~= panic_drive_actions());
    acts
}

/// Number of LED toggles in a list of actions.
pub open spec fn toggles(acts: Seq<Action>) -> nat
    decreases acts.len(),
{
    if acts.len() == 0 {
        0
    } else {
        (if acts[0] == Action::ToggleLed { 1nat } else { 0nat }) + toggles(acts.drop_first())
    }
}

/// Total pause in a list of actions, in milliseconds.
pub open spec fn pause_ms(acts: Seq<Action>) -> nat
    decreases acts.len(),
{
    if acts.len() == 0 {
        0
    } else {
        (match acts[0] {
            Action::DelayMs(ms) => ms as nat,
            _ => 0nat,
        }) + pause_ms(acts.drop_first())
    }
}

/// A round of the panic signal toggles the LED twice, so it leaves the LED as it
/// found it and repeats the same pattern; it lasts 1050 ms of pauses, of which
/// the LED spends 150 ms in the changed state. The driven signal ends each round
/// with the pin high, the level it is left at for the long phase.
pub proof fn law_panic_signal_period(report: bool)
    ensures
        toggles(panic_toggle_actions(report)) == 2,
        pause_ms(panic_toggle_actions(report)) == 1050,
        pause_ms(panic_drive_actions()) == 1050,
        panic_toggle_actions(report)[if report { 2int } else { 1int }] == Action::DelayMs(150),
        panic_drive_actions()[2] == Action::DelayMs(150),
        panic_drive_actions()[1] == Action::DriveLed(false),
        panic_drive_actions()[0] == Action::ReportPanic,
        panic_toggle_actions(report)[0] == Action::ReportPanic <==> report,
        toggles(panic_drive_actions()) == 0,
        panic_drive_actions()[3] == Action::DriveLed(true),
{
    let a = panic_toggle_actions(report);
    let d = panic_drive_actions();
    reveal_with_fuel(toggles, 6);
    reveal_with_fuel(pause_ms, 6);
    if report {
        assert(a.drop_first() =~= panic_toggle_actions(false));
    }
    let b = panic_toggle_actions(false);
    assert(b.drop_first() =~= seq![Action::DelayMs(PANIC_SHORT_MS), Action::ToggleLed, Action::DelayMs(PANIC_LONG_MS)]);
    assert(b.drop_first().drop_first() =~= seq![Action::ToggleLed, Action::DelayMs(PANIC_LONG_MS)]);
    assert(b.drop_first().drop_first().drop_first() =~= seq![Action::DelayMs(PANIC_LONG_MS)]);
    assert(b.drop_first().drop_first().drop_first().drop_first() =~= Seq::<Action>::empty());
    assert(d.drop_first() =~= seq![Action::DriveLed(false), Action::DelayMs(PANIC_SHORT_MS), Action::DriveLed(true), Action::DelayMs(PANIC_LONG_MS)]);
    assert(d.drop_first().drop_first() =~= seq![Action::DelayMs(PANIC_SHORT_MS), Action::DriveLed(true), Action::DelayMs(PANIC_LONG_MS)]);
    assert(d.drop_first().drop_first().drop_first() =~= seq![Action::DriveLed(true), Action::DelayMs(PANIC_LONG_MS)]);
    assert(d.drop_first().drop_first().drop_first().drop_first() =~= seq![Action::DelayMs(PANIC_LONG_MS)]);
    assert(d.drop_first().drop_first().drop_first().drop_first().drop_first() =~= Seq::<Action>::empty());
}

/// The button interrupt toggles the LED exactly when an edge is pending, and
/// only then acknowledges it; the timer interrupt toggles it once per event.
pub proof fn law_interrupts_toggle_once(pending: bool)
    ensures
        toggles(button_actions(pending)) == (if pending { 1nat } else { 0nat }),
        button_actions(pending).contains(Action::ClearInterrupt) == pending,
        toggles(timer_actions()) == 1,
        toggles(blinky_actions()) == 1,
        pause_ms(blinky_actions()) == 300,
        pause_ms(button_actions(pending)) == (if pending { 80nat } else { 0nat }),
        pause_ms(timer_actions()) == 0,
        timer_actions()[0] == Action::WaitTimer,
{
    reveal_with_fuel(toggles, 4);
    reveal_with_fuel(pause_ms, 4);
    let b = button_actions(pending);
    if pending {
        assert(b.drop_first() =~= seq![Action::DelayMs(DEBOUNCE_MS), Action::ClearInterrupt]);
        assert(b.drop_first().drop_first() =~= seq![Action::ClearInterrupt]);
        assert(b.drop_first().drop_first().drop_first() =~= Seq::<Action>::empty());
        assert(b[2] == Action::ClearInterrupt);
    } else {
        assert(!b.contains(Action::ClearInterrupt));
    }
    let t = timer_actions();
    assert(t.drop_first() =~= seq![Action::ToggleLed, Action::ClearInterrupt]);
    assert(t.drop_first().drop_first() =~= seq![Action::ClearInterrupt]);
    assert(t.drop_first().drop_first().drop_first() =~= Seq::<Action>::empty());
    let k = blinky_actions();
    assert(k.drop_first() =~= seq![Action::DelayMs(BLINK_MS)]);
    assert(k.drop_first().drop_first() =~= Seq::<Action>::empty());
}

} // verus!
