use sc_evdev::buttons::Buttons;
use sc_evdev::steam_controller::{
    button_changes, feature_report, i16_from_le_bytes_steam, parse_input_report, report_events,
    retries_after_failure, rumble_report, steam_controller_indices, Command, ControllerEvent,
    WrongLength, FEATURE_REPORT_ATTEMPTS, STEAM_CONTROLLER_PRODUCT_ID, STEAM_CONTROLLER_VENDOR_ID,
};

#[test]
fn command_codes() {
    let cases = [
        (Command::SetDigitalMappings, 0x80u8),
        (Command::ClearDigitalMappings, 0x81),
        (Command::GetDigitalMappings, 0x82),
        (Command::SetDefaultMappings, 0x85),
        (Command::SetSettings, 0x87),
        (Command::GetSettings, 0x88),
        (Command::Unknown1, 0xe2),
        (Command::Unknown2, 0xdc),
        (Command::Unknown3, 0xc1),
    ];
    for (c, code) in cases {
        assert_eq!(c.code(), code);
    }
}

#[test]
fn feature_report_is_padded_to_64_bytes() {
    let r = feature_report(Command::SetSettings, &[0x09, 0x00, 0x00]);
    assert_eq!(r.len(), 64);
    assert_eq!(&r[0..6], &[0x01, 0x87, 0x03, 0x09, 0x00, 0x00]);
    assert!(r[6..].iter().all(|b| *b == 0));
    let r = feature_report(Command::ClearDigitalMappings, &[]);
    assert_eq!(r.len(), 64);
    assert_eq!(&r[0..3], &[0x01, 0x81, 0x00]);
}

#[test]
fn long_feature_report_is_not_cut() {
    let payload: Vec<u8> = (0..70u8).collect();
    let r = feature_report(Command::SetDigitalMappings, &payload);
    assert_eq!(r.len(), 73);
    assert_eq!(r[2], 70);
    assert_eq!(&r[3..], &payload[..]);
    let payload = vec![7u8; 300];
    let r = feature_report(Command::SetDigitalMappings, &payload);
    assert_eq!(r.len(), 303);
    assert_eq!(r[2], 44);
}

#[test]
fn rumble_report_layout() {
    assert_eq!(rumble_report(0x1234, 0xabcd), [0x80, 0, 0, 0x34, 0x12, 0xcd, 0xab, 2, 0, 0]);
    assert_eq!(rumble_report(0, 0xffff), [0x80, 0, 0, 0, 0, 0xff, 0xff, 2, 0, 0]);
}

#[test]
fn steam_reading_avoids_i16_min() {
    assert_eq!(i16_from_le_bytes_steam(&[0x00, 0x80]), Ok(-32767));
    assert_eq!(i16_from_le_bytes_steam(&[0x01, 0x80]), Ok(-32767));
    assert_eq!(i16_from_le_bytes_steam(&[0xff, 0x7f]), Ok(32767));
    assert_eq!(i16_from_le_bytes_steam(&[0xff, 0xff]), Ok(-1));
    assert_eq!(i16_from_le_bytes_steam(&[0x34, 0x12]), Ok(0x1234));
}

#[test]
fn steam_reading_wants_two_bytes() {
    assert_eq!(i16_from_le_bytes_steam(&[1]), Err(WrongLength { len: 1 }));
    assert_eq!(i16_from_le_bytes_steam(&[]), Err(WrongLength { len: 0 }));
    assert_eq!(i16_from_le_bytes_steam(&[1, 2, 3]), Err(WrongLength { len: 3 }));
}

fn put(buf: &mut [u8], off: usize, v: i16) {
    buf[off..off + 2].copy_from_slice(&v.to_le_bytes());
}

fn sample_report(buttons: u32) -> Vec<u8> {
    let mut buf = vec![0u8; 64];
    buf[0] = 66;
    buf[2..6].copy_from_slice(&buttons.to_le_bytes());
    put(&mut buf, 10, 100);
    put(&mut buf, 12, -200);
    put(&mut buf, 14, i16::MIN);
    put(&mut buf, 16, i16::MAX);
    put(&mut buf, 18, 1);
    put(&mut buf, 20, 2);
    put(&mut buf, 22, 3);
    put(&mut buf, 24, -4);
    put(&mut buf, 26, -5);
    put(&mut buf, 28, -6);
    buf[30..34].copy_from_slice(&0xdead_beefu32.to_le_bytes());
    put(&mut buf, 34, 7);
    put(&mut buf, 36, 8);
    put(&mut buf, 38, 9);
    put(&mut buf, 40, -10);
    put(&mut buf, 42, -11);
    put(&mut buf, 44, -12);
    buf
}

#[test]
fn input_report_is_read() {
    let buf = sample_report(Buttons::BTN_A | Buttons::BTN_GRIPL);
    let r = parse_input_report(&buf).unwrap();
    assert_eq!(r.buttons.bits(), Buttons::BTN_A | Buttons::BTN_GRIPL);
    assert_eq!(r.left_stick, (100, -200));
    assert_eq!(r.right_stick, (-32767, 32767));
    assert_eq!(r.left_pad, (1, 2, 3));
    assert_eq!(r.right_pad, (-4, -5, -6));
    assert_eq!(r.sensor_timestamp_us, 0xdead_beef);
    assert_eq!(r.accel, (7, 8, 9));
    assert_eq!(r.gyro, (-10, -11, -12));
}

#[test]
fn other_reports_are_not_read() {
    let mut buf = sample_report(0);
    buf[0] = 65;
    assert!(parse_input_report(&buf).is_none());
    let buf = sample_report(0);
    assert!(parse_input_report(&buf[..45]).is_none());
    assert!(parse_input_report(&buf[..46]).is_some());
    assert!(parse_input_report(&[]).is_none());
}

#[test]
fn button_changes_split_released_and_pressed() {
    let last = Buttons::from_bits_retain(Buttons::BTN_A | Buttons::BTN_B);
    let now = Buttons::from_bits_retain(Buttons::BTN_B | Buttons::BTN_X);
    let (released, pressed) = button_changes(last, now);
    assert_eq!(released.bits(), Buttons::BTN_A);
    assert_eq!(pressed.bits(), Buttons::BTN_X);
}

#[test]
fn report_events_in_order() {
    let last = Buttons::from_bits_retain(Buttons::BTN_A | Buttons::BTN_B | Buttons::BTN_Y);
    let buf = sample_report(Buttons::BTN_B | Buttons::BTN_X | Buttons::BTN_START);
    let (now, events) = report_events(last, &buf);
    assert_eq!(now.bits(), Buttons::BTN_B | Buttons::BTN_X | Buttons::BTN_START);
    let b = |bits: u32| Buttons::from_bits_retain(bits);
    assert_eq!(
        events,
        vec![
            ControllerEvent::Button { button: b(Buttons::BTN_A), pressed: false },
            ControllerEvent::Button { button: b(Buttons::BTN_Y), pressed: false },
            ControllerEvent::Button { button: b(Buttons::BTN_X), pressed: true },
            ControllerEvent::Button { button: b(Buttons::BTN_START), pressed: true },
            ControllerEvent::Joysticks { left: (100, -200), right: (-32767, 32767) },
            ControllerEvent::Touchpads { left: (1, 2, 3), right: (-4, -5, -6) },
            ControllerEvent::MotionSensors { timestamp_us: 0xdead_beef, accel: (7, 8, 9), gyro: (-10, -11, -12) },
        ]
    );
}

#[test]
fn unchanged_buttons_send_no_button_event() {
    let last = Buttons::from_bits_retain(Buttons::BTN_B);
    let (now, events) = report_events(last, &sample_report(Buttons::BTN_B));
    assert_eq!(now, last);
    assert_eq!(events.len(), 3);
}

#[test]
fn non_input_read_sends_nothing() {
    let last = Buttons::from_bits_retain(Buttons::BTN_B);
    let mut buf = sample_report(0);
    buf[0] = 1;
    let (now, events) = report_events(last, &buf);
    assert_eq!(now, last);
    assert!(events.is_empty());
}

#[test]
fn feature_report_gives_up_after_50_attempts() {
    assert_eq!(retries_after_failure(50), Some(49));
    assert_eq!(retries_after_failure(2), Some(1));
    assert_eq!(retries_after_failure(1), None);
    let mut retries = FEATURE_REPORT_ATTEMPTS;
    let mut attempts = 0;
    loop {
        attempts += 1;
        match retries_after_failure(retries) {
            Some(r) => retries = r,
            None => break,
        }
    }
    assert_eq!(attempts, 50);
}

#[test]
fn steam_controllers_are_picked_once_per_path() {
    let steam = (STEAM_CONTROLLER_VENDOR_ID, STEAM_CONTROLLER_PRODUCT_ID);
    let other = (0x046d, 0xc52b);
    let paths = vec![b"/dev/a".to_vec(), b"/dev/b".to_vec(), b"/dev/a".to_vec(), b"/dev/c".to_vec()];
    let ids = vec![steam, steam, steam, other];
    assert_eq!(steam_controller_indices(&paths, &ids), vec![0, 1]);
}

#[test]
fn a_repeated_path_counts_at_its_first_device() {
    let steam = (STEAM_CONTROLLER_VENDOR_ID, STEAM_CONTROLLER_PRODUCT_ID);
    let other = (0x28de, 0x1142);
    let paths = vec![b"/dev/x".to_vec(), b"/dev/x".to_vec(), b"/dev/y".to_vec()];
    let ids = vec![other, steam, steam];
    assert_eq!(steam_controller_indices(&paths, &ids), vec![2]);
    assert!(steam_controller_indices(&vec![], &vec![]).is_empty());
}
