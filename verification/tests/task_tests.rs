use bluepill_firmware::action::Action;
use bluepill_firmware::counter::GreetingCounter;
use bluepill_firmware::pulse::{
    blinky_cycle, button_interrupt, panic_drive_cycle, panic_toggle_cycle, timer_interrupt,
};
use bluepill_firmware::rtc::{
    alarm_after, alarm_greeting_cycle, alarm_interrupt, first_alarm, half_ticks_of, panic_half_start,
    panic_half_wait, rtc_blink_cycle, SignalHalf,
};

#[test]
fn blinky_toggles_every_300_ms() {
    assert_eq!(blinky_cycle(), vec![Action::ToggleLed, Action::DelayMs(300)]);
}

#[test]
fn button_interrupt_only_when_pending() {
    assert_eq!(
        button_interrupt(true),
        vec![Action::ToggleLed, Action::DelayMs(80), Action::ClearInterrupt]
    );
    assert_eq!(button_interrupt(false), vec![]);
}

#[test]
fn timer_interrupt_sequence() {
    assert_eq!(timer_interrupt(), vec![Action::WaitTimer, Action::ToggleLed, Action::ClearInterrupt]);
}

#[test]
fn panic_signals() {
    let quiet = panic_toggle_cycle(false);
    assert_eq!(
        quiet,
        vec![Action::ToggleLed, Action::DelayMs(150), Action::ToggleLed, Action::DelayMs(900)]
    );
    let loud = panic_toggle_cycle(true);
    assert_eq!(loud[0], Action::ReportPanic);
    assert_eq!(&loud[1..], &quiet[..]);
    assert_eq!(
        panic_drive_cycle(),
        vec![
            Action::ReportPanic,
            Action::DriveLed(false),
            Action::DelayMs(150),
            Action::DriveLed(true),
            Action::DelayMs(900),
        ]
    );
}

#[test]
fn rtc_blink_waits_for_alarm() {
    assert_eq!(
        rtc_blink_cycle(),
        vec![Action::SetRtcCounter(1), Action::SetRtcAlarm(32), Action::WaitRtcAlarm, Action::ToggleLed]
    );
}

#[test]
fn alarm_arithmetic() {
    assert_eq!(alarm_after(5, 7), 12);
    assert_eq!(first_alarm(100), 116);
    assert_eq!(first_alarm(0), 16);
    assert_eq!(
        alarm_interrupt(1000),
        vec![Action::SetRtcAlarm(1008), Action::ToggleLed, Action::ClearInterrupt]
    );
    assert_eq!(alarm_interrupt(u32::MAX - 8)[0], Action::SetRtcAlarm(u32::MAX));
    assert_eq!(alarm_greeting_cycle(), vec![Action::SendGreeting, Action::WaitRtcAlarm]);
}

#[test]
fn rtc_panic_halves_alternate() {
    // the counter is read after the opening of each half
    assert_eq!(panic_half_start(SignalHalf::Low), vec![Action::ReportPanic, Action::DriveLed(false)]);
    let (a, next) = panic_half_wait(SignalHalf::Low, 40);
    assert_eq!(a, vec![Action::SetRtcAlarm(43), Action::WaitRtcAlarm]);
    assert_eq!(next, SignalHalf::High);
    assert_eq!(panic_half_start(next), vec![Action::DriveLed(true)]);
    let (b, next) = panic_half_wait(next, 43);
    assert_eq!(b, vec![Action::SetRtcAlarm(56), Action::WaitRtcAlarm]);
    assert_eq!(next, SignalHalf::Low);
    assert_eq!(half_ticks_of(SignalHalf::Low), 3);
    assert_eq!(half_ticks_of(SignalHalf::High), 13);
}

#[test]
fn greeting_counter_halts_on_twelfth_round() {
    let mut c = GreetingCounter::new();
    for round in 1..=11u32 {
        let acts = c.tick();
        assert_eq!(acts, vec![Action::SendGreeting, Action::DelayMs(300)]);
        assert_eq!(c.count, round);
    }
    let last = c.tick();
    assert_eq!(last, vec![Action::SendGreeting, Action::DelayMs(300), Action::Halt]);
    assert_eq!(c.count, 11);
}
