use keypoint::board::ble_addr;
use keypoint::connection::{BleState, ConnectionStatus, ConnectionType, UsbState};
use keypoint::motion_pin::{LineState, PollWait, WaitFor};
use keypoint::sleep_watch::{sleeping, SleepWatch};
use keypoint::status_led::{
    led_step, link_state, note_central, note_status, pwm_config, LedStep, LinkState, StatusLed,
    BLINK_LEVEL, ST_ADV, ST_CONN, ST_IDLE,
};
use keypoint::usb_diag::{on_status, record, snapshot, usb_connected, usb_mark, UsbDiag};

fn status(usb: UsbState, ble_state: BleState, preferred: ConnectionType) -> ConnectionStatus {
    ConnectionStatus { usb, ble_state, profile: 0, preferred }
}

fn text(diag: &UsbDiag) -> String {
    let mut out: heapless::String<8> = heapless::String::new();
    snapshot(diag, &mut out);
    out.as_str().to_string()
}

#[test]
fn the_mark_is_the_newest_state() {
    let mut d = UsbDiag::new();
    assert_eq!(usb_mark(&d), '?');
    on_status(&mut d, status(UsbState::Configured, BleState::Inactive, ConnectionType::Usb));
    assert_eq!(usb_mark(&d), '+');
    on_status(&mut d, status(UsbState::Suspended, BleState::Inactive, ConnectionType::Usb));
    assert_eq!(usb_mark(&d), 's');
    on_status(&mut d, status(UsbState::Disabled, BleState::Connected, ConnectionType::Usb));
    assert_eq!(usb_mark(&d), '-');
    on_status(&mut d, status(UsbState::Disabled, BleState::Advertising, ConnectionType::Usb));
    assert_eq!(usb_mark(&d), '-');
    assert_eq!(text(&d), "absu");
    on_status(&mut d, status(UsbState::Enabled, BleState::Inactive, ConnectionType::Usb));
    assert_eq!((usb_mark(&d), text(&d).as_str()), ('-', "xabsu"));
}

#[test]
fn the_radio_leg_is_recorded() {
    for (ble, letter) in [(BleState::Advertising, "a"), (BleState::Connected, "b"), (BleState::Inactive, "x")] {
        let mut d = UsbDiag::new();
        on_status(&mut d, status(UsbState::Disabled, ble, ConnectionType::Usb));
        assert_eq!(text(&d), letter);
        assert!(!usb_connected(&d));
    }
}

#[test]
fn the_active_transport_is_recorded() {
    let mut d = UsbDiag::new();
    on_status(&mut d, status(UsbState::Configured, BleState::Connected, ConnectionType::Ble));
    assert_eq!(text(&d), "b");
    assert!(usb_connected(&d));
    on_status(&mut d, status(UsbState::Configured, BleState::Connected, ConnectionType::Usb));
    assert_eq!(text(&d), "ub");
    on_status(&mut d, status(UsbState::Enabled, BleState::Inactive, ConnectionType::Usb));
    assert_eq!(text(&d), "xub");
    assert!(usb_connected(&d));
    on_status(&mut d, status(UsbState::Suspended, BleState::Connected, ConnectionType::Ble));
    assert_eq!((text(&d).as_str(), d.usb_now), ("bxub", 2));
    on_status(&mut d, status(UsbState::Disabled, BleState::Inactive, ConnectionType::Ble));
    assert_eq!(d.usb_now, 0);
    assert!(!usb_connected(&d));
}

#[test]
fn the_tape_holds_eight_transitions() {
    let mut d = UsbDiag::new();
    for code in [1, 2, 3, 4, 5, 1, 2, 3, 4] {
        record(&mut d, code);
    }
    assert_eq!(d.tape, 0x2345_1234);
    assert_eq!(text(&d), "absuxabs");
    record(&mut d, 0);
    assert_eq!(usb_mark(&d), '?');
    assert_eq!(text(&d), "absuxab");
}

#[test]
fn a_full_string_takes_no_more() {
    let mut d = UsbDiag::new();
    record(&mut d, 1);
    record(&mut d, 2);
    let mut out: heapless::String<8> = heapless::String::new();
    out.push_str("1234567").unwrap();
    snapshot(&d, &mut out);
    assert_eq!(out.as_str(), "1234567s");
}

#[test]
fn the_lamp_follows_the_host_link() {
    let mut link = LinkState::new();
    assert_eq!(link_state(&link), ST_ADV);
    for (usb, ble, want) in [
        (UsbState::Configured, BleState::Inactive, ST_CONN),
        (UsbState::Suspended, BleState::Advertising, ST_CONN),
        (UsbState::Disabled, BleState::Advertising, ST_ADV),
        (UsbState::Enabled, BleState::Connected, ST_CONN),
        (UsbState::Enabled, BleState::Inactive, ST_IDLE),
    ] {
        note_status(&mut link, &status(usb, ble, ConnectionType::Usb));
        assert_eq!(link_state(&link), want);
    }
    note_central(&mut link, true);
    assert_eq!(link_state(&link), ST_CONN);
    note_central(&mut link, false);
    assert_eq!(link_state(&link), ST_ADV);
}

#[test]
fn the_lamp_blinks_once_a_second() {
    let link = LinkState::new();
    let mut tick = 0u8;
    for i in 0..1000u32 {
        let step = led_step(false, &link, tick);
        let level = if i % 20 < 10 { BLINK_LEVEL } else { 0 };
        let next = ((i + 1) % 20) as u8;
        assert_eq!(step, LedStep { level, tick: next, pause_ms: 50 });
        tick = step.tick;
    }
    assert_eq!(led_step(false, &link, 255).tick, 16);
}

#[test]
fn the_lamp_is_dark_when_linked_or_asleep() {
    let mut link = LinkState::new();
    assert_eq!(led_step(true, &link, 3), LedStep { level: 0, tick: 3, pause_ms: 500 });
    note_central(&mut link, true);
    for tick in 0..=255 {
        assert_eq!(led_step(false, &link, tick).level, 0);
    }
}

#[test]
fn levels_are_duties() {
    let led = StatusLed::new(());
    assert_eq!(led.set_level(0), 0);
    assert_eq!(led.set_level(1), 4);
    assert_eq!(led.set_level(128), 502);
    assert_eq!(led.set_level(BLINK_LEVEL), 941);
    assert_eq!(led.set_level(255), 1000);
    assert_eq!(pwm_config().max_duty, 1000);
    for level in 1..=255 {
        assert!(led.set_level(level) > led.set_level(level - 1));
    }
}

#[test]
fn lines_are_polled() {
    let line = PollWait::new(7u8);
    assert_eq!((line.pin, line.period_us), (7, 500));
    assert!(line.is_low::<()>(Ok(true)));
    assert!(!line.is_low::<()>(Ok(false)));
    assert!(!line.is_low(Err(())));
    assert!(line.is_high::<()>(Ok(true)));
    assert!(!line.is_high(Err(())));
    for wait in [WaitFor::Low, WaitFor::FallingEdge, WaitFor::AnyEdge] {
        assert_eq!(wait.line_state(), LineState::Low);
        assert_eq!(line.poll::<()>(wait, Ok(true)), None);
        assert_eq!(line.poll::<()>(wait, Ok(false)), Some(500));
    }
    for wait in [WaitFor::High, WaitFor::RisingEdge] {
        assert_eq!(wait.line_state(), LineState::High);
        assert_eq!(line.poll(wait, Err(())), Some(500));
    }
}

#[test]
fn sleep_is_mirrored() {
    let mut w = SleepWatch::new();
    assert!(!sleeping(&w));
    w.note(true);
    assert!(sleeping(&w));
    w.note(false);
    assert!(!sleeping(&w));
}

#[test]
fn addresses_are_static_random() {
    assert_eq!(ble_addr([0x1234_5678, 0x9abc_def0]), [0x78, 0x56, 0x34, 0x12, 0xf0, 0xde]);
    assert_eq!(ble_addr([0, 0]), [0, 0, 0, 0, 0, 0xC0]);
    assert_eq!(ble_addr([u32::MAX, 0x3FFF]), [0xFF; 6]);
    assert_ne!(ble_addr([1, 2]), ble_addr([1, 3]));
}
