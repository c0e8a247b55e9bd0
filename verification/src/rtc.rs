use vstd::prelude::*;
use crate::action::Action;

verus! {

/// Counting rate of the RTC in the alarm-blink program, in hertz.
pub const RTC_BLINK_HZ: u32 = 64;
/// Counter value loaded at the start of each blink, and the alarm value.
pub const RTC_BLINK_START: u32 = 1;
pub const RTC_BLINK_ALARM: u32 = 32;

/// Counting rate of the RTC in the alarm-interrupt program and in its panic
/// signal, in hertz.
pub const ALARM_HZ: u32 = 16;
/// Ticks from start-up to the first alarm, and between two alarms.
pub const FIRST_ALARM_TICKS: u32 = 16;
pub const ALARM_PERIOD_TICKS: u32 = 8;
/// Ticks of the two halves of the RTC-timed panic signal.
pub const PANIC_LOW_TICKS: u32 = 3;
pub const PANIC_HIGH_TICKS: u32 = 13;

/// One round of the alarm-blink program: load the counter, arm the alarm,
/// wait for it, toggle the LED.
pub open spec fn rtc_blink_actions() -> Seq<Action> {
    seq![
        Action::SetRtcCounter(RTC_BLINK_START),
        Action::SetRtcAlarm(RTC_BLINK_ALARM),
        Action::WaitRtcAlarm,
        Action::ToggleLed,
    ]
}

/// One round of the alarm-blink program.
pub fn rtc_blink_cycle() -> (acts: Vec<Action>)
    ensures
        acts@ == rtc_blink_actions(),
{
    let acts = vec![
        Action::SetRtcCounter(RTC_BLINK_START),
        Action::SetRtcAlarm(RTC_BLINK_ALARM),
        Action::WaitRtcAlarm,
        Action::ToggleLed,
    ];
    assert(acts@ =~= rtc_blink_actions());
    acts
}

/// One round of the alarm-interrupt program's main loop: greet, then wait for
/// the alarm.
pub open spec fn alarm_greeting_actions() -> Seq<Action> {
    seq![Action::SendGreeting, Action::WaitRtcAlarm]
}

/// One round of the alarm-interrupt program's main loop.
pub fn alarm_greeting_cycle() -> (acts: Vec<Action>)
    ensures
        acts@ == alarm_greeting_actions(),
{
    let acts = vec![Action::SendGreeting, Action::WaitRtcAlarm];
    assert(acts@ =~= alarm_greeting_actions());
    acts
}

/// The counter value at which an alarm `ticks` after `now` fires.
pub fn alarm_after(now: u32, ticks: u32) -> (at: u32)
    requires
        now + ticks <= u32::MAX,
    ensures
        at == now + ticks,
{
    now + ticks
}

/// The first alarm of the alarm-interrupt program, given the counter at start-up.
pub fn first_alarm(now: u32) -> (at: u32)
    requires
        now + FIRST_ALARM_TICKS <= u32::MAX,
    ensures
        at == now + FIRST_ALARM_TICKS,
{
    alarm_after(now, FIRST_ALARM_TICKS)
}

/// The alarm interrupt: arm the next alarm, toggle the LED, acknowledge the
/// interrupt line.
pub open spec fn alarm_interrupt_actions(now: u32) -> Seq<Action> {
    seq![
        Action::SetRtcAlarm((now + ALARM_PERIOD_TICKS) as u32),
        Action::ToggleLed,
        Action::ClearInterrupt,
    ]
}

/// What the alarm interrupt does, given the counter when it runs.
pub fn alarm_interrupt(now: u32) -> (acts: Vec<Action>)
    requires
        now + ALARM_PERIOD_TICKS <= u32::MAX,
    ensures
        acts@ == alarm_interrupt_actions(now),
{
    let at = alarm_after(now, ALARM_PERIOD_TICKS);
    let acts = vec![Action::SetRtcAlarm(at), Action::ToggleLed, Action::ClearInterrupt];
    assert(acts@ =~= alarm_interrupt_actions(now));
    acts
}

/// The two halves of the RTC-timed panic signal, named by the LED pin level.
#[derive(Clone, Copy, Debug, PartialEq, Eq, Structural)]
pub enum SignalHalf {
    Low,
    High,
}

pub open spec fn half_ticks(h: SignalHalf) -> u32 {
    match h {
        SignalHalf::Low => PANIC_LOW_TICKS,
        SignalHalf::High => PANIC_HIGH_TICKS,
    }
}

/// Ticks that a half of the panic signal lasts.
pub fn half_ticks_of(h: SignalHalf) -> (t: u32)
    ensures
        t == half_ticks(h),
{
    match h {
        SignalHalf::Low => PANIC_LOW_TICKS,
        SignalHalf::High => PANIC_HIGH_TICKS,
    }
}

/// The opening of a half of the RTC-timed panic signal: the low half reports
/// the panic and drives the pin low, the high half drives the pin high.
/// The counter is read only after these are done.
pub open spec fn panic_half_start_actions(h: SignalHalf) -> Seq<Action> {
    match h {
        SignalHalf::Low => seq![Action::ReportPanic, Action::DriveLed(false)],
        SignalHalf::High => seq![Action::DriveLed(true)],
    }
}

/// The rest of a half, given the counter read after its opening: arm the alarm
/// the half's own number of ticks ahead and wait for it; then the other half follows.
pub open spec fn panic_half_wait_effect(h: SignalHalf, now: u32) -> (Seq<Action>, SignalHalf) {
    (
        seq![Action::SetRtcAlarm((now + half_ticks(h)) as u32), Action::WaitRtcAlarm],
        match h {
            SignalHalf::Low => SignalHalf::High,
            SignalHalf::High => SignalHalf::Low,
        },
    )
}

/// The opening of a half of the RTC-timed panic signal.
pub fn panic_half_start(h: SignalHalf) -> (acts: Vec<Action>)
    ensures
        acts@ == panic_half_start_actions(h),
{
    let acts = match h {
        SignalHalf::Low => vec![Action::ReportPanic, Action::DriveLed(false)],
        SignalHalf::High => vec![Action::DriveLed(true)],
    };
    assert(acts@ =~= panic_half_start_actions(h));
    acts
}

/// The alarm part of a half of the RTC-timed panic signal, given the counter
/// read after the half's opening.
pub fn panic_half_wait(h: SignalHalf, now: u32) -> (res: (Vec<Action>, SignalHalf))
    requires
        now + half_ticks(h) <= u32::MAX,
    ensures
        (res.0@, res.1) == panic_half_wait_effect(h, now),
{
    let at = alarm_after(now, half_ticks_of(h));
    let acts = vec![Action::SetRtcAlarm(at), Action::WaitRtcAlarm];
    assert(acts@ =~= panic_half_wait_effect(h, now).0);
    let next = match h {
        SignalHalf::Low => SignalHalf::High,
        SignalHalf::High => SignalHalf::Low,
    };
    (acts, next)
}

/// Whether every alarm armed by a list of actions lies strictly after `now`.
pub open spec fn alarms_after(acts: Seq<Action>, now: u32) -> bool {
    forall|i: int| 0 <= i < acts.len() ==> match #[trigger] acts[i] {
        Action::SetRtcAlarm(at) => at > now,
        _ => true,
    }
}

/// Every alarm the programs arm lies strictly after the counter value it is
/// computed from (so it is never zero, which the RTC driver cannot take); the
/// panic signal computes its alarms from the counter read after the message and
/// the pin change, and the blink program's alarm lies after the value it loads
/// into the counter. The openings of the panic signal's halves arm no alarm, and
/// two halves bring the signal back to the half it started from.
pub proof fn law_alarms_in_future(now: u32, h: SignalHalf)
    ensures
        now + ALARM_PERIOD_TICKS <= u32::MAX ==> alarms_after(alarm_interrupt_actions(now), now),
        now + half_ticks(h) <= u32::MAX ==> alarms_after(panic_half_wait_effect(h, now).0, now),
        forall|i: int| 0 <= i < panic_half_start_actions(h).len()
            ==> !(#[trigger] panic_half_start_actions(h)[i] is SetRtcAlarm),
        alarms_after(rtc_blink_actions(), RTC_BLINK_START),
        panic_half_wait_effect(panic_half_wait_effect(h, now).1, now).1 == h,
{
    let a = alarm_interrupt_actions(now);
    assert forall|i: int| 0 <= i < a.len() implies match #[trigger] a[i] {
        Action::SetRtcAlarm(at) => now + ALARM_PERIOD_TICKS <= u32::MAX ==> at > now,
        _ => true,
    } by {}
    let p = panic_half_wait_effect(h, now).0;
    assert forall|i: int| 0 <= i < p.len() implies match #[trigger] p[i] {
        Action::SetRtcAlarm(at) => now + half_ticks(h) <= u32::MAX ==> at > now,
        _ => true,
    } by {}
    let b = rtc_blink_actions();
    assert forall|i: int| 0 <= i < b.len() implies match #[trigger] b[i] {
        Action::SetRtcAlarm(at) => at > RTC_BLINK_START,
        _ => true,
    } by {}
}

/// The alarm offsets, spelled out: the alarm interrupt re-arms 8 ticks after the
/// counter it reads, the first alarm comes 16 ticks after start-up, the panic
/// signal stays low for 3 ticks and high for 13, and the blink program loads 1
/// and waits for 32, i.e. 31 ticks of its 64 Hz counter.
pub proof fn law_alarm_offsets(now: u32)
    ensures
        now + 8 <= u32::MAX ==> alarm_interrupt_actions(now)[0] == Action::SetRtcAlarm((now + 8) as u32),
        now + 3 <= u32::MAX ==> panic_half_wait_effect(SignalHalf::Low, now).0[0]
            == Action::SetRtcAlarm((now + 3) as u32),
        now + 13 <= u32::MAX ==> panic_half_wait_effect(SignalHalf::High, now).0[0]
            == Action::SetRtcAlarm((now + 13) as u32),
        panic_half_start_actions(SignalHalf::Low) == seq![Action::ReportPanic, Action::DriveLed(false)],
        panic_half_start_actions(SignalHalf::High) == seq![Action::DriveLed(true)],
        rtc_blink_actions()[0] == Action::SetRtcCounter(1),
        rtc_blink_actions()[1] == Action::SetRtcAlarm(32),
        RTC_BLINK_HZ == 64,
        ALARM_HZ == 16,
        FIRST_ALARM_TICKS == 16,
{
}

} // verus!
