//! Decision logic of a set of STM32F1 ("blue pill") firmware programs: LED
//! blinking, button and timer interrupts, RTC alarms, serial line reception and
//! a light/humidity control panel. Every function here decides; the firmware
//! around it performs the register I/O that the returned actions name.

pub mod action;
pub mod frame;
pub mod panel;
pub mod pulse;
pub mod rtc;
pub mod counter;
