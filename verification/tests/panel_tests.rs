use bluepill_firmware::panel::{
    logger_cycle, logger_startup, Banner, Label, Output, Panel, PanelAction, CMD_HUM_OFF,
    CMD_HUM_ON, CMD_LED_OFF, CMD_LED_ON, CMD_LOCK, CMD_UNLOCK,
};

fn status(row: u8, label: Label) -> PanelAction {
    PanelAction::ShowLabel { x: 40, y: row, label }
}

#[test]
fn command_led_on_off() {
    let mut p = Panel::new();
    assert_eq!(
        p.on_command(CMD_LED_ON),
        vec![
            PanelAction::EchoByte(0xB1),
            status(4, Label::Open),
            PanelAction::DrivePin { output: Output::Led, high: true },
        ]
    );
    assert!(p.led_on);
    assert_eq!(
        p.on_command(CMD_LED_OFF),
        vec![
            PanelAction::EchoByte(0xB0),
            status(4, Label::Close),
            PanelAction::DrivePin { output: Output::Led, high: false },
        ]
    );
    assert!(!p.led_on);
}

#[test]
fn command_humidifier_is_active_low() {
    let mut p = Panel::new();
    assert_eq!(
        p.on_command(CMD_HUM_ON),
        vec![
            PanelAction::EchoByte(0xC1),
            status(6, Label::Open),
            PanelAction::DrivePin { output: Output::Humidifier, high: false },
        ]
    );
    assert!(p.hum_on);
    assert_eq!(p.on_command(CMD_HUM_OFF)[2], PanelAction::DrivePin { output: Output::Humidifier, high: true });
}

#[test]
fn unknown_command_is_only_echoed() {
    let mut p = Panel::new();
    assert_eq!(p.on_command(0x42), vec![PanelAction::EchoByte(0x42)]);
    assert_eq!(p, Panel::new());
}

#[test]
fn lock_freezes_outputs() {
    let mut p = Panel::new();
    p.on_command(CMD_LED_ON);
    assert_eq!(p.on_command(CMD_LOCK), vec![PanelAction::EchoByte(0xA1)]);
    assert!(p.locked);
    assert_eq!(p.on_command(CMD_LED_OFF), vec![PanelAction::EchoByte(0xB0)]);
    assert_eq!(p.on_command(CMD_HUM_ON), vec![PanelAction::EchoByte(0xC1)]);
    let acts = p.on_sample(100);
    assert_eq!(
        acts,
        vec![
            PanelAction::ShowLabel { x: 88, y: 2, label: Label::Blank },
            PanelAction::ShowNumber { x: 64, y: 2, value: 100 },
        ]
    );
    assert!(p.led_on && !p.hum_on && p.locked);
    p.on_command(CMD_UNLOCK);
    assert!(!p.locked);
    p.on_command(CMD_LED_OFF);
    assert!(!p.led_on);
}

#[test]
fn sample_thresholds() {
    let mut p = Panel::new();
    let acts = p.on_sample(2701);
    assert_eq!(
        acts,
        vec![
            PanelAction::ShowNumber { x: 64, y: 2, value: 2701 },
            status(4, Label::Open),
            PanelAction::DrivePin { output: Output::Led, high: true },
            status(6, Label::Open),
            PanelAction::DrivePin { output: Output::Humidifier, high: false },
        ]
    );
    assert!(p.led_on && p.hum_on);
    p.on_sample(2700);
    assert!(p.led_on && !p.hum_on);
    p.on_sample(2001);
    assert!(p.led_on && !p.hum_on);
    p.on_sample(2000);
    assert!(!p.led_on && !p.hum_on);
    // at 1000 the fourth digit is in use, below it is blanked
    assert_eq!(p.on_sample(1000)[0], PanelAction::ShowNumber { x: 64, y: 2, value: 1000 });
    assert_eq!(p.on_sample(999)[0], PanelAction::ShowLabel { x: 88, y: 2, label: Label::Blank });
}

#[test]
fn sample_is_idempotent() {
    let mut p = Panel::new();
    p.on_sample(2500);
    let once = p;
    p.on_sample(2500);
    assert_eq!(p, once);
}

#[test]
fn set_led_and_hum_direct() {
    let mut p = Panel::new();
    assert_eq!(
        p.set_led(true),
        vec![status(4, Label::Open), PanelAction::DrivePin { output: Output::Led, high: true }]
    );
    assert_eq!(
        p.set_hum(false),
        vec![status(6, Label::Close), PanelAction::DrivePin { output: Output::Humidifier, high: true }]
    );
    p.locked = true;
    assert_eq!(p.set_led(false), vec![]);
    assert!(p.led_on);
}

#[test]
fn startup_sequence() {
    let mut p = Panel::new();
    let acts = p.startup();
    assert_eq!(acts.len(), 18);
    assert_eq!(acts[0], PanelAction::InitDisplay);
    assert_eq!(acts[5], PanelAction::ShowBanner { x: 0, y: 0, banner: Banner::Welcome });
    assert_eq!(acts[6], PanelAction::DelayMs(255));
    assert_eq!(acts[12], PanelAction::ShowLabel { x: 64, y: 2, label: Label::NotANumber });
    assert_eq!(acts[13], status(4, Label::Close));
    assert_eq!(acts[14], PanelAction::DrivePin { output: Output::Led, high: false });
    assert_eq!(acts[15], status(6, Label::Close));
    assert_eq!(acts[16], PanelAction::DrivePin { output: Output::Humidifier, high: true });
    assert_eq!(acts[17], PanelAction::EnableInterrupts);
    assert!(!p.led_on && !p.hum_on);
}

#[test]
fn logger_sequences() {
    assert_eq!(
        logger_startup(),
        vec![
            PanelAction::InitDisplay,
            PanelAction::DisplayOn,
            PanelAction::ClearDisplay,
            PanelAction::ShowLabel { x: 0, y: 0, label: Label::Welcome },
        ]
    );
    assert_eq!(logger_cycle(1234), vec![PanelAction::ReportReading(1234), PanelAction::DelayMs(300)]);
}
