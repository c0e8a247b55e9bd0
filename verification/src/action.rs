use vstd::prelude::*;

verus! {

/// One thing the firmware does to its peripherals, in the order a step returns it.
///
/// "The LED" is the LED that the program in question drives; `DriveLed(true)`
/// drives its pin high, `DriveLed(false)` low.
#[derive(Clone, Copy, Debug, PartialEq, Eq, Structural)]
pub enum Action {
    ToggleLed,
    DriveLed(bool),
    DelayMs(u32),
    /// Acknowledge the interrupt that is being served.
    ClearInterrupt,
    /// Block until the general purpose timer signals its update event.
    WaitTimer,
    /// Load the RTC counter.
    SetRtcCounter(u32),
    /// Arm the RTC alarm for the given counter value.
    SetRtcAlarm(u32),
    /// Block until the RTC alarm fires.
    WaitRtcAlarm,
    /// Send the program's greeting line on the serial port.
    SendGreeting,
    /// Send the frame that the serial reception just completed.
    SendFrame,
    /// Send the panic message on the serial port.
    ReportPanic,
    /// Stop with a panic.
    Halt,
}

} // verus!
