use sc_evdev::buttons::Buttons;
use sc_evdev::evdev::{
    gamepad_key, gamepad_keys, joystick_axis_events, key_state_value, motion_sensor_events,
    pad_axis_events, trigger_axis_events, AbsAxis, GamepadKey,
};

#[test]
fn button_keys() {
    let b = |bits: u32| Buttons::from_bits_retain(bits);
    assert_eq!(gamepad_key(b(Buttons::BTN_A)), Some(GamepadKey::BtnSouth));
    assert_eq!(gamepad_key(b(Buttons::BTN_Y)), Some(GamepadKey::BtnNorth));
    assert_eq!(gamepad_key(b(Buttons::BTN_R4)), Some(GamepadKey::Btn0));
    assert_eq!(gamepad_key(b(Buttons::BTN_GRIPL)), Some(GamepadKey::Btn7));
    assert_eq!(gamepad_key(b(Buttons::BTN_STEAM)), Some(GamepadKey::BtnMode));
    assert_eq!(gamepad_key(b(Buttons::BTN_QUICK_ACCESS)), Some(GamepadKey::BtnBase));
    assert_eq!(gamepad_key(b(Buttons::BTN_THUMBL_TOUCH)), None);
    assert_eq!(gamepad_key(b(Buttons::BTN_A | Buttons::BTN_B)), None);
    assert_eq!(gamepad_key(Buttons::empty()), None);
}

#[test]
fn every_key_sent_is_declared() {
    let keys = gamepad_keys();
    for bit in 0..32 {
        if let Some(k) = gamepad_key(Buttons::from_bits_retain(1u32 << bit)) {
            assert!(keys.contains(&k));
        }
    }
}

#[test]
fn key_values() {
    assert_eq!(key_state_value(true), 1);
    assert_eq!(key_state_value(false), 0);
}

#[test]
fn axis_events() {
    assert_eq!(trigger_axis_events(5, -6), [(AbsAxis::Hat2X, 5), (AbsAxis::Hat2Y, -6)]);
    assert_eq!(
        joystick_axis_events(1, -2, 3, -4),
        [(AbsAxis::X, 1), (AbsAxis::Y, -2), (AbsAxis::Rx, 3), (AbsAxis::Ry, -4)]
    );
    assert_eq!(
        pad_axis_events(1, 2, 3, 4, 5, 6),
        [
            (AbsAxis::Hat0X, 1),
            (AbsAxis::Hat0Y, 2),
            (AbsAxis::Pressure, 3),
            (AbsAxis::Hat1X, 4),
            (AbsAxis::Hat1Y, 5),
            (AbsAxis::MtPressure, 6)
        ]
    );
}

#[test]
fn motion_events_wrap_timestamp() {
    let (ts, axes) = motion_sensor_events(0xffff_fffe, 1, 2, 3, 4, 5, 6);
    assert_eq!(ts, -2);
    assert_eq!(
        axes,
        [(AbsAxis::X, 1), (AbsAxis::Y, 2), (AbsAxis::Z, 3), (AbsAxis::Rx, 4), (AbsAxis::Ry, 5), (AbsAxis::Rz, 6)]
    );
    assert_eq!(motion_sensor_events(7, 0, 0, 0, 0, 0, 0).0, 7);
}
