use vstd::prelude::*;

verus! {

/// Serial command that locks the outputs against every change.
pub const CMD_LOCK: u8 = 0xA1;
/// Serial command that unlocks the outputs.
pub const CMD_UNLOCK: u8 = 0xA2;
/// Serial commands that switch the lamp off and on.
pub const CMD_LED_OFF: u8 = 0xB0;
pub const CMD_LED_ON: u8 = 0xB1;
/// Serial commands that switch the humidifier off and on.
pub const CMD_HUM_OFF: u8 = 0xC0;
pub const CMD_HUM_ON: u8 = 0xC1;

/// Light readings below this leave a stale fourth digit that is blanked.
pub const BLANK_BELOW: u16 = 1000;
/// Light readings above this switch the lamp on.
pub const LED_ABOVE: u16 = 2000;
/// Light readings above this switch the humidifier on as well.
pub const HUM_ABOVE: u16 = 2700;

/// Column of the status words, and the rows of the two status lines.
pub const STATUS_X: u8 = 40;
pub const LED_ROW: u8 = 4;
pub const HUM_ROW: u8 = 6;
/// Where the light reading is shown, and the column of its fourth digit.
pub const READING_X: u8 = 64;
pub const READING_ROW: u8 = 2;
pub const FOURTH_DIGIT_X: u8 = 88;

/// Pause while the welcome banner is shown, in milliseconds.
pub const WELCOME_PAUSE_MS: u32 = 255;

/// The two switched outputs. The lamp is on when its pin is high; the
/// humidifier's relay is active low, so it is on when its pin is low.
#[derive(Clone, Copy, Debug, PartialEq, Eq, Structural)]
pub enum Output {
    Led,
    Humidifier,
}

/// Texts that the display shows.
#[derive(Clone, Copy, Debug, PartialEq, Eq, Structural)]
pub enum Label {
    /// "OPEN "
    Open,
    /// "CLOSE"
    Close,
    /// "LED:"
    LedTitle,
    /// "HUM:"
    HumTitle,
    /// "NaN"
    NotANumber,
    /// "Welcome!!"
    Welcome,
    /// A single blank.
    Blank,
}

/// Lines of 16x16 glyphs that the display shows.
#[derive(Clone, Copy, Debug, PartialEq, Eq, Structural)]
pub enum Banner {
    /// The greeting line.
    Welcome,
    /// The title of the light reading.
    Analog,
}

/// One thing the panel firmware does to its peripherals.
#[derive(Clone, Copy, Debug, PartialEq, Eq, Structural)]
pub enum PanelAction {
    InitDisplay,
    DisplayOn,
    ClearDisplay,
    ShowBanner { x: u8, y: u8, banner: Banner },
    ShowLabel { x: u8, y: u8, label: Label },
    ShowNumber { x: u8, y: u8, value: u16 },
    /// Write the received command byte back on the serial port.
    EchoByte(u8),
    /// Write a light reading on the serial port.
    ReportReading(u16),
    DrivePin { output: Output, high: bool },
    DelayMs(u32),
    /// Start listening to the serial port and the sampling timer.
    EnableInterrupts,
}

/// State of the control panel: whether the outputs are locked, and the state
/// each output was last switched to.
#[derive(Clone, Copy, Debug, PartialEq, Eq, Structural)]
pub struct Panel {
    pub locked: bool,
    pub led_on: bool,
    pub hum_on: bool,
}

/// The pin level that puts an output into a state.
pub open spec fn pin_high_for(o: Output, on: bool) -> bool {
    match o {
        Output::Led => on,
        Output::Humidifier => !on,
    }
}

pub open spec fn row_of(o: Output) -> u8 {
    match o {
        Output::Led => LED_ROW,
        Output::Humidifier => HUM_ROW,
    }
}

pub open spec fn status_label(on: bool) -> Label {
    if on {
        Label::Open
    } else {
        Label::Close
    }
}

/// The state that an output was last switched to.
pub open spec fn output_state(p: Panel, o: Output) -> bool {
    match o {
        Output::Led => p.led_on,
        Output::Humidifier => p.hum_on,
    }
}

/// Switching an output: nothing at all while the panel is locked; otherwise
/// the status word is rewritten and the pin driven.
pub open spec fn switch(p: Panel, o: Output, on: bool) -> (Panel, Seq<PanelAction>) {
    if p.locked {
        (p, Seq::empty())
    } else {
        (
            match o {
                Output::Led => Panel { led_on: on, ..p },
                Output::Humidifier => Panel { hum_on: on, ..p },
            },
            seq![
                PanelAction::ShowLabel { x: STATUS_X, y: row_of(o), label: status_label(on) },
                PanelAction::DrivePin { output: o, high: pin_high_for(o, on) },
            ],
        )
    }
}

/// The lock after a command byte.
pub open spec fn lock_after(locked: bool, b: u8) -> bool {
    if b == CMD_LOCK {
        true
    } else if b == CMD_UNLOCK {
        false
    } else {
        locked
    }
}

/// The output and state that a command byte asks for, if any.
pub open spec fn command_target(b: u8) -> Option<(Output, bool)> {
    if b == CMD_LED_OFF {
        Some((Output::Led, false))
    } else if b == CMD_LED_ON {
        Some((Output::Led, true))
    } else if b == CMD_HUM_OFF {
        Some((Output::Humidifier, false))
    } else if b == CMD_HUM_ON {
        Some((Output::Humidifier, true))
    } else {
        None
    }
}

/// A received command: it is echoed, the lock is updated, then the output it
/// names, if any, is switched.
pub open spec fn command_effect(p: Panel, b: u8) -> (Panel, Seq<PanelAction>) {
    let p1 = Panel { locked: lock_after(p.locked, b), ..p };
    match command_target(b) {
        Some((o, on)) => {
            let (p2, acts) = switch(p1, o, on);
            (p2, seq![PanelAction::EchoByte(b)] + acts)
        },
        None => (p1, seq![PanelAction::EchoByte(b)]),
    }
}

/// The lamp is wanted above the lower light threshold, the humidifier above
/// the upper one.
pub open spec fn led_wanted(analog: u16) -> bool {
    analog > LED_ABOVE
}

pub open spec fn hum_wanted(analog: u16) -> bool {
    analog > HUM_ABOVE
}

/// The display part of a light sample: the fourth digit is blanked below
/// `BLANK_BELOW`, then the reading is shown.
pub open spec fn reading_actions(analog: u16) -> Seq<PanelAction> {
    let shown = seq![PanelAction::ShowNumber { x: READING_X, y: READING_ROW, value: analog }];
    if analog < BLANK_BELOW {
        seq![PanelAction::ShowLabel { x: FOURTH_DIGIT_X, y: READING_ROW, label: Label::Blank }]
            + shown
    } else {
        shown
    }
}

/// A light sample: the reading is shown, then the lamp and the humidifier are
/// switched to what the reading asks for.
pub open spec fn sample_effect(p: Panel, analog: u16) -> (Panel, Seq<PanelAction>) {
    let (p1, a1) = switch(p, Output::Led, led_wanted(analog));
    let (p2, a2) = switch(p1, Output::Humidifier, hum_wanted(analog));
    (p2, reading_actions(analog) + a1 + a2)
}

/// The display and pin sequence at power-up, before the outputs are switched off.
pub open spec fn startup_prefix() -> Seq<PanelAction> {
    seq![
        PanelAction::InitDisplay,
        PanelAction::DisplayOn,
        PanelAction::ClearDisplay,
        PanelAction::DrivePin { output: Output::Humidifier, high: false },
        PanelAction::DrivePin { output: Output::Led, high: true },
        PanelAction::ShowBanner { x: 0, y: 0, banner: Banner::Welcome },
        PanelAction::DelayMs(WELCOME_PAUSE_MS),
        PanelAction::DrivePin { output: Output::Humidifier, high: true },
        PanelAction::DrivePin { output: Output::Led, high: false },
        PanelAction::ShowBanner { x: 0, y: 2, banner: Banner::Analog },
        PanelAction::ShowLabel { x: 0, y: 4, label: Label::LedTitle },
        PanelAction::ShowLabel { x: 0, y: 6, label: Label::HumTitle },
        PanelAction::ShowLabel { x: READING_X, y: READING_ROW, label: Label::NotANumber },
    ]
}

/// Power-up: the fixed sequence, both outputs switched off, interrupts enabled.
pub open spec fn startup_effect(p: Panel) -> (Panel, Seq<PanelAction>) {
    let (p1, a1) = switch(p, Output::Led, false);
    let (p2, a2) = switch(p1, Output::Humidifier, false);
    (p2, startup_prefix() + a1 + a2 + seq![PanelAction::EnableInterrupts])
}

fn push_all(v: &mut Vec<PanelAction>, more: Vec<PanelAction>)
    ensures
        final(v)@ == old(v)@ + more@,
{
    let mut more = more;
    v.append(&mut more);
}

impl Panel {
    /// The panel at reset: unlocked, both outputs off.
    pub fn new() -> (p: Self)
        ensures
            p == (Panel { locked: false, led_on: false, hum_on: false }),
    {
        Panel { locked: false, led_on: false, hum_on: false }
    }

    /// Switches one output, unless the panel is locked.
    pub fn set_output(&mut self, o: Output, on: bool) -> (acts: Vec<PanelAction>)
        ensures
            (*final(self), acts@) == switch(*old(self), o, on),
    {
        if self.locked {
            return Vec::new();
        }
        let mut acts = Vec::new();
        let label = if on {
            Label::Open
        } else {
            Label::Close
        };
        let (row, high) = match o {
            Output::Led => {
                self.led_on = on;
                (LED_ROW, on)
            },
            Output::Humidifier => {
                self.hum_on = on;
                (HUM_ROW, !on)
            },
        };
        acts.push(PanelAction::ShowLabel { x: STATUS_X, y: row, label: label });
        acts.push(PanelAction::DrivePin { output: o, high: high });
        proof {
            assert(acts@ =~= switch(*old(self), o, on).1);
        }
        acts
    }

    /// Switches the lamp, unless the panel is locked.
    pub fn set_led(&mut self, on: bool) -> (acts: Vec<PanelAction>)
        ensures
            (*final(self), acts@) == switch(*old(self), Output::Led, on),
    {
        self.set_output(Output::Led, on)
    }

    /// Switches the humidifier, unless the panel is locked.
    pub fn set_hum(&mut self, on: bool) -> (acts: Vec<PanelAction>)
        ensures
            (*final(self), acts@) == switch(*old(self), Output::Humidifier, on),
    {
        self.set_output(Output::Humidifier, on)
    }

    /// Handles one byte received on the serial port.
    pub fn on_command(&mut self, b: u8) -> (acts: Vec<PanelAction>)
        ensures
            (*final(self), acts@) == command_effect(*old(self), b),
    {
        let mut acts = Vec::new();
        acts.push(PanelAction::EchoByte(b));
        if b == CMD_LOCK {
            self.locked = true;
        } else if b == CMD_UNLOCK {
            self.locked = false;
        }
        if b == CMD_LED_OFF {
            let more = self.set_led(false);
            push_all(&mut acts, more);
        } else if b == CMD_LED_ON {
            let more = self.set_led(true);
            push_all(&mut acts, more);
        } else if b == CMD_HUM_OFF {
            let more = self.set_hum(false);
            push_all(&mut acts, more);
        } else if b == CMD_HUM_ON {
            let more = self.set_hum(true);
            push_all(&mut acts, more);
        }
        proof {
            assert(acts@ =~= command_effect(*old(self), b).1);
        }
        acts
    }

    /// Handles one light reading taken by the sampling timer.
    pub fn on_sample(&mut self, analog: u16) -> (acts: Vec<PanelAction>)
        ensures
            (*final(self), acts@) == sample_effect(*old(self), analog),
    {
        let mut acts = Vec::new();
        if analog < BLANK_BELOW {
            acts.push(
                PanelAction::ShowLabel { x: FOURTH_DIGIT_X, y: READING_ROW, label: Label::Blank },
            );
        }
        acts.push(PanelAction::ShowNumber { x: READING_X, y: READING_ROW, value: analog });
        let (led, hum) = if analog > HUM_ABOVE {
            (true, true)
        } else if analog > LED_ABOVE {
            (true, false)
        } else {
            (false, false)
        };
        let more = self.set_led(led);
        push_all(&mut acts, more);
        let more = self.set_hum(hum);
        push_all(&mut acts, more);
        proof {
            assert(acts@ =~= sample_effect(*old(self), analog).1);
        }
        acts
    }

    /// The power-up sequence of the panel.
    pub fn startup(&mut self) -> (acts: Vec<PanelAction>)
        ensures
            (*final(self), acts@) == startup_effect(*old(self)),
    {
        let mut acts = Vec::new();
        acts.push(PanelAction::InitDisplay);
        acts.push(PanelAction::DisplayOn);
        acts.push(PanelAction::ClearDisplay);
        acts.push(PanelAction::DrivePin { output: Output::Humidifier, high: false });
        acts.push(PanelAction::DrivePin { output: Output::Led, high: true });
        acts.push(PanelAction::ShowBanner { x: 0, y: 0, banner: Banner::Welcome });
        acts.push(PanelAction::DelayMs(WELCOME_PAUSE_MS));
        acts.push(PanelAction::DrivePin { output: Output::Humidifier, high: true });
        acts.push(PanelAction::DrivePin { output: Output::Led, high: false });
        acts.push(PanelAction::ShowBanner { x: 0, y: 2, banner: Banner::Analog });
        acts.push(PanelAction::ShowLabel { x: 0, y: 4, label: Label::LedTitle });
        acts.push(PanelAction::ShowLabel { x: 0, y: 6, label: Label::HumTitle });
        acts.push(PanelAction::ShowLabel { x: READING_X, y: READING_ROW, label: Label::NotANumber });
        let more = self.set_led(false);
        push_all(&mut acts, more);
        let more = self.set_hum(false);
        push_all(&mut acts, more);
        acts.push(PanelAction::EnableInterrupts);
        proof {
            assert(acts@ =~= startup_effect(*old(self)).1);
        }
        acts
    }
}

/// Light-logger power-up: the display is started and greets.
pub open spec fn logger_startup_actions() -> Seq<PanelAction> {
    seq![
        PanelAction::InitDisplay,
        PanelAction::DisplayOn,
        PanelAction::ClearDisplay,
        PanelAction::ShowLabel { x: 0, y: 0, label: Label::Welcome },
    ]
}

/// Pause between two readings of the light logger, in milliseconds.
pub const LOGGER_PERIOD_MS: u32 = 300;

/// The light logger's power-up sequence.
pub fn logger_startup() -> (acts: Vec<PanelAction>)
    ensures
        acts@ == logger_startup_actions(),
{
    let mut acts = Vec::new();
    acts.push(PanelAction::InitDisplay);
    acts.push(PanelAction::DisplayOn);
    acts.push(PanelAction::ClearDisplay);
    acts.push(PanelAction::ShowLabel { x: 0, y: 0, label: Label::Welcome });
    proof {
        assert(acts@ =~= logger_startup_actions());
    }
    acts
}

/// One round of the light logger, given the reading just taken: report it on
/// the serial port, then pause.
pub fn logger_cycle(analog: u16) -> (acts: Vec<PanelAction>)
    ensures
        acts@ == seq![PanelAction::ReportReading(analog), PanelAction::DelayMs(LOGGER_PERIOD_MS)],
{
    let mut acts = Vec::new();
    acts.push(PanelAction::ReportReading(analog));
    acts.push(PanelAction::DelayMs(LOGGER_PERIOD_MS));
    proof {
        assert(acts@ =~= seq![PanelAction::ReportReading(analog), PanelAction::DelayMs(LOGGER_PERIOD_MS)]);
    }
    acts
}

// ---------------------------------------------------------------------------
// Laws of the panel.
// ---------------------------------------------------------------------------

/// Whether a list of actions drives any output pin.
pub open spec fn drives_a_pin(acts: Seq<PanelAction>) -> bool {
    exists|i: int| 0 <= i < acts.len() && (#[trigger] acts[i]) is DrivePin
}

/// Whether every pin that a list of actions drives is driven to the level that
/// puts its output into the state the panel records for it.
pub open spec fn pins_match(p: Panel, acts: Seq<PanelAction>) -> bool {
    forall|i: int| 0 <= i < acts.len() ==> match #[trigger] acts[i] {
        PanelAction::DrivePin { output, high } => high == pin_high_for(output, output_state(p, output)),
        _ => true,
    }
}

/// While the panel is locked, neither a light sample nor any command but the
/// unlock command changes the outputs or drives a pin; the panel stays locked.
pub proof fn law_lock_freezes_outputs(p: Panel, b: u8, analog: u16)
    requires
        p.locked,
    ensures
        b != CMD_UNLOCK ==> {
            let (q, acts) = command_effect(p, b);
            &&& q == p
            &&& !drives_a_pin(acts)
        },
        ({
            let (q, acts) = sample_effect(p, analog);
            &&& q == p
            &&& !drives_a_pin(acts)
        }),
{
    if b != CMD_UNLOCK {
        let (q, acts) = command_effect(p, b);
        assert(acts =~= seq![PanelAction::EchoByte(b)]);
        if drives_a_pin(acts) {
            let i = choose|i: int| 0 <= i < acts.len() && (#[trigger] acts[i]) is DrivePin;
            assert(acts[i] == PanelAction::EchoByte(b));
        }
    }
    let (q, acts) = sample_effect(p, analog);
    assert(acts =~= reading_actions(analog));
    if drives_a_pin(acts) {
        let i = choose|i: int| 0 <= i < acts.len() && (#[trigger] acts[i]) is DrivePin;
        assert(!(acts[i] is DrivePin));
    }
}

/// On an unlocked panel a light sample alone decides the outputs: the lamp is on
/// exactly above the lower threshold, the humidifier exactly above the upper
/// one, so the humidifier never runs with the lamp off. Sampling the same
/// reading again changes nothing.
pub proof fn law_sample_decides_outputs(p: Panel, analog: u16)
    requires
        !p.locked,
    ensures
        ({
            let q = sample_effect(p, analog).0;
            &&& q.led_on == (analog > LED_ABOVE)
            &&& q.hum_on == (analog > HUM_ABOVE)
            &&& q.hum_on ==> q.led_on
            &&& !q.locked
            &&& sample_effect(q, analog).0 == q
        }),
{
}

/// Whatever the panel does on a command or a light sample, every pin it drives
/// goes to the level of the state it then records for that output (the
/// humidifier's relay being active low).
pub proof fn law_pins_follow_state(p: Panel, b: u8, analog: u16)
    ensures
        pins_match(command_effect(p, b).0, command_effect(p, b).1),
        pins_match(sample_effect(p, analog).0, sample_effect(p, analog).1),
{
    let (q, acts) = command_effect(p, b);
    assert forall|i: int| 0 <= i < acts.len() implies match #[trigger] acts[i] {
        PanelAction::DrivePin { output, high } => high == pin_high_for(output, output_state(q, output)),
        _ => true,
    } by {
        if i > 0 {
            let (o, on) = command_target(b)->0;
            assert(acts[i] == switch(Panel { locked: lock_after(p.locked, b), ..p }, o, on).1[i - 1]);
        }
    }
    let (q, acts) = sample_effect(p, analog);
    let (p1, a1) = switch(p, Output::Led, led_wanted(analog));
    let (p2, a2) = switch(p1, Output::Humidifier, hum_wanted(analog));
    let r = reading_actions(analog);
    assert forall|i: int| 0 <= i < acts.len() implies match #[trigger] acts[i] {
        PanelAction::DrivePin { output, high } => high == pin_high_for(output, output_state(q, output)),
        _ => true,
    } by {
        if i < r.len() {
            assert(acts[i] == r[i]);
        } else if i < r.len() + a1.len() {
            assert(acts[i] == a1[i - r.len()]);
        } else {
            assert(acts[i] == a2[i - r.len() - a1.len()]);
        }
    }
}

/// At power-up of an unlocked panel both outputs end switched off, and the last
/// pins driven put the lamp low and the humidifier high (off), after which the
/// interrupts are enabled.
pub proof fn law_startup_ends_off(p: Panel)
    requires
        !p.locked,
    ensures
        ({
            let (q, acts) = startup_effect(p);
            &&& !q.led_on && !q.hum_on && !q.locked
            &&& acts.len() == 18
            &&& acts[14] == PanelAction::DrivePin { output: Output::Led, high: false }
            &&& acts[16] == PanelAction::DrivePin { output: Output::Humidifier, high: true }
            &&& acts[17] == PanelAction::EnableInterrupts
        }),
{
}

/// The lock commands set and clear the lock; every other byte leaves it, and
/// the unlock command restores control: after it the switch commands act again.
pub proof fn law_lock_commands(p: Panel, b: u8)
    ensures
        command_effect(p, CMD_LOCK).0.locked,
        !command_effect(p, CMD_UNLOCK).0.locked,
        b != CMD_LOCK && b != CMD_UNLOCK ==> command_effect(p, b).0.locked == p.locked,
        command_effect(command_effect(p, CMD_UNLOCK).0, CMD_LED_ON).0.led_on,
        !command_effect(command_effect(p, CMD_UNLOCK).0, CMD_HUM_OFF).0.hum_on,
{
}

/// Status word for a state, as the original writes it.
pub open spec fn word(on: bool) -> Label {
    if on { Label::Open } else { Label::Close }
}

/// What a light sample does, spelled out. The reading is shown at column 64,
/// row 2, after a blank at column 88 when it is below 1000. On an unlocked
/// panel the lamp is then switched (status word on row 4, its pin high exactly
/// when the reading is above 2000) and then the humidifier (status word on row 6,
/// its active-low pin low exactly when the reading is above 2700), and the
/// panel records both. On a locked panel only the reading is shown.
pub proof fn law_sample_actions(p: Panel, a: u16)
    ensures
        ({
            let shown = if a < 1000 {
                seq![
                    PanelAction::ShowLabel { x: 88, y: 2, label: Label::Blank },
                    PanelAction::ShowNumber { x: 64, y: 2, value: a },
                ]
            } else {
                seq![PanelAction::ShowNumber { x: 64, y: 2, value: a }]
            };
            &&& !p.locked ==> sample_effect(p, a) == (
                Panel { locked: false, led_on: a > 2000, hum_on: a > 2700 },
                shown + seq![
                    PanelAction::ShowLabel { x: 40, y: 4, label: word(a > 2000) },
                    PanelAction::DrivePin { output: Output::Led, high: a > 2000 },
                    PanelAction::ShowLabel { x: 40, y: 6, label: word(a > 2700) },
                    PanelAction::DrivePin { output: Output::Humidifier, high: !(a > 2700) },
                ],
            )
            &&& p.locked ==> sample_effect(p, a) == (p, shown)
        }),
{
    let shown = if a < 1000 {
        seq![
            PanelAction::ShowLabel { x: 88, y: 2, label: Label::Blank },
            PanelAction::ShowNumber { x: 64, y: 2, value: a },
        ]
    } else {
        seq![PanelAction::ShowNumber { x: 64, y: 2, value: a }]
    };
    assert(reading_actions(a) =~= shown);
    if !p.locked {
        assert(sample_effect(p, a).1 =~= shown + seq![
            PanelAction::ShowLabel { x: 40, y: 4, label: word(a > 2000) },
            PanelAction::DrivePin { output: Output::Led, high: a > 2000 },
            PanelAction::ShowLabel { x: 40, y: 6, label: word(a > 2700) },
            PanelAction::DrivePin { output: Output::Humidifier, high: !(a > 2700) },
        ]);
    } else {
        assert(sample_effect(p, a).1 =~= shown);
    }
}

/// What a command byte does, spelled out. Every byte is echoed first. 0xA1
/// locks and 0xA2 unlocks, and do nothing else. On an unlocked panel 0xB1 puts
/// the lamp on (OPEN on row 4, pin high), 0xB0 off (CLOSE, pin low), 0xC1 puts
/// the humidifier on (OPEN on row 6, active-low pin low), 0xC0 off (CLOSE, pin
/// high), whatever state the output was in, and the panel records it. On a
/// locked panel these four and every other byte are only echoed.
pub proof fn law_command_actions(p: Panel, b: u8)
    ensures
        command_effect(p, 0xA1) == (Panel { locked: true, ..p }, seq![PanelAction::EchoByte(0xA1)]),
        command_effect(p, 0xA2) == (Panel { locked: false, ..p }, seq![PanelAction::EchoByte(0xA2)]),
        !p.locked ==> command_effect(p, 0xB1) == (
            Panel { led_on: true, ..p },
            seq![
                PanelAction::EchoByte(0xB1),
                PanelAction::ShowLabel { x: 40, y: 4, label: Label::Open },
                PanelAction::DrivePin { output: Output::Led, high: true },
            ],
        ),
        !p.locked ==> command_effect(p, 0xB0) == (
            Panel { led_on: false, ..p },
            seq![
                PanelAction::EchoByte(0xB0),
                PanelAction::ShowLabel { x: 40, y: 4, label: Label::Close },
                PanelAction::DrivePin { output: Output::Led, high: false },
            ],
        ),
        !p.locked ==> command_effect(p, 0xC1) == (
            Panel { hum_on: true, ..p },
            seq![
                PanelAction::EchoByte(0xC1),
                PanelAction::ShowLabel { x: 40, y: 6, label: Label::Open },
                PanelAction::DrivePin { output: Output::Humidifier, high: false },
            ],
        ),
        !p.locked ==> command_effect(p, 0xC0) == (
            Panel { hum_on: false, ..p },
            seq![
                PanelAction::EchoByte(0xC0),
                PanelAction::ShowLabel { x: 40, y: 6, label: Label::Close },
                PanelAction::DrivePin { output: Output::Humidifier, high: true },
            ],
        ),
        (p.locked && (b == 0xB0 || b == 0xB1 || b == 0xC0 || b == 0xC1))
            || (b != 0xA1 && b != 0xA2 && b != 0xB0 && b != 0xB1 && b != 0xC0 && b != 0xC1)
            ==> command_effect(p, b) == (p, seq![PanelAction::EchoByte(b)]),
{
    assert(command_effect(p, 0xA1).1 =~= seq![PanelAction::EchoByte(0xA1)]);
    assert(command_effect(p, 0xA2).1 =~= seq![PanelAction::EchoByte(0xA2)]);
    if !p.locked {
        assert(command_effect(p, 0xB1).1 =~= seq![
            PanelAction::EchoByte(0xB1),
            PanelAction::ShowLabel { x: 40, y: 4, label: Label::Open },
            PanelAction::DrivePin { output: Output::Led, high: true },
        ]);
        assert(command_effect(p, 0xB0).1 =~= seq![
            PanelAction::EchoByte(0xB0),
            PanelAction::ShowLabel { x: 40, y: 4, label: Label::Close },
            PanelAction::DrivePin { output: Output::Led, high: false },
        ]);
        assert(command_effect(p, 0xC1).1 =~= seq![
            PanelAction::EchoByte(0xC1),
            PanelAction::ShowLabel { x: 40, y: 6, label: Label::Open },
            PanelAction::DrivePin { output: Output::Humidifier, high: false },
        ]);
        assert(command_effect(p, 0xC0).1 =~= seq![
            PanelAction::EchoByte(0xC0),
            PanelAction::ShowLabel { x: 40, y: 6, label: Label::Close },
            PanelAction::DrivePin { output: Output::Humidifier, high: true },
        ]);
    }
    if (p.locked && (b == 0xB0 || b == 0xB1 || b == 0xC0 || b == 0xC1))
        || (b != 0xA1 && b != 0xA2 && b != 0xB0 && b != 0xB1 && b != 0xC0 && b != 0xC1) {
        assert(command_effect(p, b).1 =~= seq![PanelAction::EchoByte(b)]);
    }
}

/// Power-up of an unlocked panel, spelled out: the display is started, the
/// humidifier (active low) and the lamp are switched on while the welcome
/// banner shows for 255 ms, then both are switched off; the analog title goes
/// on row 2, "LED:" titles row 4 and "HUM:" row 6, the rows on which the lamp's
/// and the humidifier's status words are then written; "NaN" stands where the
/// reading will go; both outputs end off and recorded off; interrupts come last.
pub proof fn law_startup_actions(p: Panel)
    requires
        !p.locked,
    ensures
        startup_effect(p) == (
            Panel { led_on: false, hum_on: false, ..p },
            seq![
                PanelAction::InitDisplay,
                PanelAction::DisplayOn,
                PanelAction::ClearDisplay,
                PanelAction::DrivePin { output: Output::Humidifier, high: false },
                PanelAction::DrivePin { output: Output::Led, high: true },
                PanelAction::ShowBanner { x: 0, y: 0, banner: Banner::Welcome },
                PanelAction::DelayMs(255),
                PanelAction::DrivePin { output: Output::Humidifier, high: true },
                PanelAction::DrivePin { output: Output::Led, high: false },
                PanelAction::ShowBanner { x: 0, y: 2, banner: Banner::Analog },
                PanelAction::ShowLabel { x: 0, y: 4, label: Label::LedTitle },
                PanelAction::ShowLabel { x: 0, y: 6, label: Label::HumTitle },
                PanelAction::ShowLabel { x: 64, y: 2, label: Label::NotANumber },
                PanelAction::ShowLabel { x: 40, y: 4, label: Label::Close },
                PanelAction::DrivePin { output: Output::Led, high: false },
                PanelAction::ShowLabel { x: 40, y: 6, label: Label::Close },
                PanelAction::DrivePin { output: Output::Humidifier, high: true },
                PanelAction::EnableInterrupts,
            ],
        ),
{
    assert(startup_effect(p).1 =~= seq![
        PanelAction::InitDisplay,
        PanelAction::DisplayOn,
        PanelAction::ClearDisplay,
        PanelAction::DrivePin { output: Output::Humidifier, high: false },
        PanelAction::DrivePin { output: Output::Led, high: true },
        PanelAction::ShowBanner { x: 0, y: 0, banner: Banner::Welcome },
        PanelAction::DelayMs(255),
        PanelAction::DrivePin { output: Output::Humidifier, high: true },
        PanelAction::DrivePin { output: Output::Led, high: false },
        PanelAction::ShowBanner { x: 0, y: 2, banner: Banner::Analog },
        PanelAction::ShowLabel { x: 0, y: 4, label: Label::LedTitle },
        PanelAction::ShowLabel { x: 0, y: 6, label: Label::HumTitle },
        PanelAction::ShowLabel { x: 64, y: 2, label: Label::NotANumber },
        PanelAction::ShowLabel { x: 40, y: 4, label: Label::Close },
        PanelAction::DrivePin { output: Output::Led, high: false },
        PanelAction::ShowLabel { x: 40, y: 6, label: Label::Close },
        PanelAction::DrivePin { output: Output::Humidifier, high: true },
        PanelAction::EnableInterrupts,
    ]);
}

/// Each status row is titled with the output whose status is written on it:
/// whatever row a switch writes an output's status word on, power-up puts that
/// output's title at the start of the same row.
pub proof fn law_titles_match_status_rows(p: Panel, o: Output, on: bool)
    requires
        !p.locked,
    ensures
        ({
            let row = switch(p, o, on).1[0]->ShowLabel_y;
            let title = match o {
                Output::Led => Label::LedTitle,
                Output::Humidifier => Label::HumTitle,
            };
            startup_effect(p).1.contains(PanelAction::ShowLabel { x: 0, y: row, label: title })
        }),
{
    law_startup_actions(p);
    let acts = startup_effect(p).1;
    match o {
        Output::Led => assert(acts[10] == PanelAction::ShowLabel { x: 0, y: 4, label: Label::LedTitle }),
        Output::Humidifier => assert(acts[11] == PanelAction::ShowLabel { x: 0, y: 6, label: Label::HumTitle }),
    }
}

/// Switching an output, spelled out. On an unlocked panel the lamp's status
/// word goes on row 4 and its pin is driven high exactly when it is switched
/// on; the humidifier's status word goes on row 6 and its active-low pin is
/// driven low exactly when it is switched on; the panel records the new state
/// and nothing else changes. On a locked panel nothing happens at all.
pub proof fn law_switch_actions(p: Panel, on: bool)
    ensures
        !p.locked ==> switch(p, Output::Led, on) == (
            Panel { led_on: on, ..p },
            seq![
                PanelAction::ShowLabel { x: 40, y: 4, label: word(on) },
                PanelAction::DrivePin { output: Output::Led, high: on },
            ],
        ),
        !p.locked ==> switch(p, Output::Humidifier, on) == (
            Panel { hum_on: on, ..p },
            seq![
                PanelAction::ShowLabel { x: 40, y: 6, label: word(on) },
                PanelAction::DrivePin { output: Output::Humidifier, high: !on },
            ],
        ),
        p.locked ==> switch(p, Output::Led, on) == (p, Seq::<PanelAction>::empty()),
        p.locked ==> switch(p, Output::Humidifier, on) == (p, Seq::<PanelAction>::empty()),
{
}

/// Power-up of a locked panel switches nothing: the fixed display and pin
/// sequence, then the interrupts.
pub proof fn law_startup_locked(p: Panel)
    requires
        p.locked,
    ensures
        startup_effect(p) == (p, startup_prefix() + seq![PanelAction::EnableInterrupts]),
        startup_prefix().len() == 13,
{
    assert(startup_effect(p).1 =~= startup_prefix() + seq![PanelAction::EnableInterrupts]);
}

} // verus!
