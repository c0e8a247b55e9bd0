# bluepill_firmware

Decision logic of a series of STM32F103 ("blue pill") programs, verified with Verus.

- `src/` — the library. Each program step is a function from its state and the
  event it saw (a received byte, a light reading, the RTC counter) to its next
  state and the list of actions to perform:
  - `frame`: serial reception (console lines closed by `'s'`, interrupt bursts
    closed by `'\n'`), with the laws that no byte is lost or repeated;
  - `panel`: the lamp/humidifier panel (serial commands, lock, light thresholds);
  - `pulse`: blinker, button and timer interrupts, panic blink patterns;
  - `rtc`: RTC alarm arithmetic and the RTC-timed programs;
  - `counter`: the greeting program that panics on its twelfth round.
- `app/` — the firmware around it: peripheral bring-up with `stm32f1xx-hal`,
  interrupt bodies, and the code that carries the actions out.
- `tests/` — scenario tests of the library.
