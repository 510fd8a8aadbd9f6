use sc_evdev::buttons::Buttons;
use sc_evdev::dualsense::{
    get_report_reply, DualsenseButtons, MappedPad, TouchPoint, VirtualDualSenseController,
    CALIBRATION_INFO, DUALSENSE_BUTTONS_ALL, FIRMWARE_INFO, PAIRING_INFO, REPORT_DESCRIPTOR,
};

fn ds(bits: u32) -> DualsenseButtons {
    DualsenseButtons::from_bits_retain(bits)
}

#[test]
fn button_bytes_without_buttons() {
    assert_eq!(DualsenseButtons::empty().as_button_bytes(), [0x08, 0x00, 0x00, 0x00]);
}

#[test]
fn button_bytes_carry_face_buttons_hat_and_low_bytes() {
    let b = ds(DualsenseButtons::CROSS
        | DualsenseButtons::DPAD_UP
        | DualsenseButtons::DPAD_RIGHT
        | DualsenseButtons::L1
        | DualsenseButtons::PS);
    assert_eq!(b.as_button_bytes(), [0x21, 0x01, 0x01, 0x00]);
}

#[test]
fn hat_switch_compass_points() {
    let u = DualsenseButtons::DPAD_UP;
    let d = DualsenseButtons::DPAD_DOWN;
    let l = DualsenseButtons::DPAD_LEFT;
    let r = DualsenseButtons::DPAD_RIGHT;
    let cases = [(u, 0u8), (u | r, 1), (r, 2), (r | d, 3), (d, 4), (d | l, 5), (l, 6), (l | u, 7)];
    for (bits, hat) in cases {
        assert_eq!(ds(bits).as_button_bytes()[0], hat);
    }
    assert_eq!(ds(u | d).as_button_bytes()[0], 0);
    assert_eq!(ds(u | d | l | r).as_button_bytes()[0], 3);
    assert_eq!(ds(DualsenseButtons::TRIANGLE | l).as_button_bytes()[0], 0x86);
}

#[test]
fn truncate_drops_unnamed_bits() {
    assert_eq!(DualsenseButtons::from_bits_truncate(0xffff_ffff).bits(), DUALSENSE_BUTTONS_ALL);
    assert_eq!(DualsenseButtons::from_bits_truncate(0x0000_00ff).bits(), 0);
}

#[test]
fn insert_remove_contains() {
    let mut b = DualsenseButtons::empty();
    b.insert(ds(DualsenseButtons::CROSS));
    b.insert(ds(DualsenseButtons::MUTE));
    assert!(b.contains(ds(DualsenseButtons::CROSS)));
    b.remove(ds(DualsenseButtons::CROSS));
    assert!(!b.contains(ds(DualsenseButtons::CROSS)));
    assert_eq!(b.bits(), DualsenseButtons::MUTE);
}

#[test]
fn steam_face_buttons_become_dualsense_face_buttons() {
    let steam = Buttons::from_bits_retain(Buttons::BTN_A | Buttons::BTN_B | Buttons::BTN_X | Buttons::BTN_Y);
    let d: DualsenseButtons = steam.into();
    assert_eq!(d.bits(), DualsenseButtons::CROSS | DualsenseButtons::CIRCLE | DualsenseButtons::SQUARE | DualsenseButtons::TRIANGLE);
}

#[test]
fn both_pad_clicks_press_the_touchpad() {
    let d = DualsenseButtons::from(Buttons::from_bits_retain(Buttons::BTN_LEFT_PAD_CLICK | Buttons::BTN_RIGHT_PAD_CLICK));
    assert_eq!(d.bits(), DualsenseButtons::TOUCHPAD);
    let d = DualsenseButtons::from(Buttons::from_bits_retain(Buttons::BTN_LEFT_PAD_CLICK));
    assert_eq!(d.bits(), DualsenseButtons::TOUCHPAD);
}

#[test]
fn buttons_without_counterpart_are_dropped() {
    let steam = Buttons::from_bits_retain(Buttons::BTN_R4 | Buttons::BTN_GRIPL | Buttons::BTN_THUMBL_TOUCH | Buttons::BTN_UNKNOWN_2);
    assert_eq!(DualsenseButtons::from(steam).bits(), 0);
}

#[test]
fn system_buttons_map() {
    let steam = Buttons::from_bits_retain(Buttons::BTN_STEAM | Buttons::BTN_QUICK_ACCESS | Buttons::BTN_START | Buttons::BTN_SELECT);
    assert_eq!(
        DualsenseButtons::from(steam).bits(),
        DualsenseButtons::PS | DualsenseButtons::MUTE | DualsenseButtons::CREATE | DualsenseButtons::OPTIONS
    );
    let steam = Buttons::from_bits_retain(Buttons::BTN_DPAD_LEFT | Buttons::BTN_THUMBR | Buttons::BTN_L2 | Buttons::BTN_R1);
    assert_eq!(
        DualsenseButtons::from(steam).bits(),
        DualsenseButtons::DPAD_LEFT | DualsenseButtons::R3 | DualsenseButtons::L2 | DualsenseButtons::R1
    );
}

#[test]
fn new_touch_point_is_lifted() {
    let tp = TouchPoint::new();
    assert!(!tp.active);
    assert_eq!(tp.id, 0);
    assert_eq!(tp.mapped_pad, MappedPad::Unmapped);
    assert_eq!(tp.as_bytes(), [0x80, 0, 0, 0]);
}

#[test]
fn touch_id_wraps_at_128() {
    let mut tp = TouchPoint::new();
    tp.id = 5;
    tp.next_id();
    assert_eq!(tp.id, 6);
    tp.id = 127;
    tp.next_id();
    assert_eq!(tp.id, 0);
}

#[test]
fn touch_point_bytes_pack_12_bit_coordinates() {
    let tp = TouchPoint { active: true, id: 3, x: 0x123, y: 0x456, mapped_pad: MappedPad::Left };
    assert_eq!(tp.as_bytes(), [0x03, 0x23, 0x61, 0x45]);
    let tp = TouchPoint { active: false, id: 0x7f, x: 0xf123, y: 0xf456, mapped_pad: MappedPad::Right };
    assert_eq!(tp.as_bytes(), [0xff, 0x23, 0x61, 0x45]);
}

#[test]
fn touch_point_bytes_decode_back() {
    let tp = TouchPoint { active: true, id: 42, x: 1919, y: 1079, mapped_pad: MappedPad::Left };
    let b = tp.as_bytes();
    assert_eq!(b[0] & 0x80 == 0, true);
    assert_eq!(b[0] & 0x7f, 42);
    assert_eq!(b[1] as u16 | ((b[2] & 0x0f) as u16) << 8, 1919);
    assert_eq!((b[2] >> 4) as u16 | (b[3] as u16) << 4, 1079);
}

#[test]
fn new_controller_report() {
    let c = VirtualDualSenseController::new();
    let r = c.input_report(0x0102_0304);
    let expected: [u8; 64] = [
        0x01, 0, 0, 0, 0, 0, 0, 0, 0x08, 0, 0, 0, 0xac, 0x0a, 0xaf, 0x14, 0, 0, 0, 0, 0, 0, 0, 0,
        0, 0, 0, 0, 0x04, 0x03, 0x02, 0x01, 0x1b, 0x80, 0, 0, 0, 0x80, 0, 0, 0, 0xbd, 0x09, 0x09,
        0, 0, 0, 0, 0, 0x92, 0xa0, 0xe8, 0xae, 0x29, 0x0c, 0x00, 0xb0, 0x7e, 0xc8, 0x76, 0xf8, 0xcc,
        0xa2, 0x2b,
    ];
    assert_eq!(r, expected);
}

#[test]
fn report_carries_the_state() {
    let mut c = VirtualDualSenseController::new();
    c.set_sticks((1, 2), (3, 4));
    c.update_motion_sensors(-2, 0x1234, 0, 1, -1, 256);
    c.update_buttons(ds(DualsenseButtons::CIRCLE | DualsenseButtons::DPAD_DOWN), true);
    c.advance_sequence_number();
    let r = c.input_report(0xffff_ffff);
    assert_eq!(&r[0..8], &[0x01, 1, 2, 3, 4, 0, 0, 1]);
    assert_eq!(&r[8..12], &[0x44, 0, 0, 0]);
    assert_eq!(&r[16..22], &[0x01, 0x00, 0xff, 0xff, 0x00, 0x01]);
    assert_eq!(&r[22..28], &[0xfe, 0xff, 0x34, 0x12, 0x00, 0x00]);
    assert_eq!(&r[28..32], &[0xff, 0xff, 0xff, 0xff]);
}

#[test]
fn buttons_press_and_release() {
    let mut c = VirtualDualSenseController::new();
    c.update_buttons(ds(DualsenseButtons::CROSS | DualsenseButtons::L1), true);
    c.update_buttons(ds(DualsenseButtons::R1), true);
    c.update_buttons(ds(DualsenseButtons::CROSS), false);
    assert_eq!(c.buttons.bits(), DualsenseButtons::L1 | DualsenseButtons::R1);
}

#[test]
fn sequence_number_wraps() {
    let mut c = VirtualDualSenseController::new();
    c.sequence_number = 254;
    c.advance_sequence_number();
    assert_eq!(c.sequence_number, 255);
    c.advance_sequence_number();
    assert_eq!(c.sequence_number, 0);
    for _ in 0..256 {
        c.advance_sequence_number();
    }
    assert_eq!(c.sequence_number, 0);
}

#[test]
fn touchpad_contacts_follow_the_pads() {
    let mut c = VirtualDualSenseController::new();
    c.update_touchpad(100, 200, 50, 0, 960, 540);
    assert_eq!(c.touch_points[0], TouchPoint { active: true, id: 1, x: 960, y: 540, mapped_pad: MappedPad::Left });
    assert_eq!(c.touch_points[1], TouchPoint::new());

    c.update_touchpad(-5, 7, 0, 1, 100, 200);
    assert_eq!(c.touch_points[1], TouchPoint { active: true, id: 1, x: 100, y: 200, mapped_pad: MappedPad::Right });

    c.update_touchpad(1, 1, 1, 0, 970, 545);
    assert_eq!(c.touch_points[0], TouchPoint { active: true, id: 1, x: 970, y: 545, mapped_pad: MappedPad::Left });

    c.update_touchpad(0, 0, 0, 0, 0, 0);
    assert_eq!(c.touch_points[0], TouchPoint { active: false, id: 1, x: 970, y: 545, mapped_pad: MappedPad::Unmapped });
    assert_eq!(c.touch_points[1].mapped_pad, MappedPad::Right);

    c.update_touchpad(3, 3, 3, 0, 10, 20);
    assert_eq!(c.touch_points[0], TouchPoint { active: true, id: 2, x: 10, y: 20, mapped_pad: MappedPad::Left });
}

#[test]
fn lifting_an_untouched_pad_lifts_a_free_point() {
    let mut c = VirtualDualSenseController::new();
    c.update_touchpad(0, 0, 0, 1, 500, 500);
    assert_eq!(c.touch_points[1], TouchPoint::new());
    assert_eq!(c.touch_points[0], TouchPoint::new());
}

#[test]
fn feature_report_replies() {
    assert_eq!(get_report_reply(0x05), Some(CALIBRATION_INFO.to_vec()));
    assert_eq!(get_report_reply(0x09), Some(PAIRING_INFO.to_vec()));
    assert_eq!(get_report_reply(0x20), Some(FIRMWARE_INFO.to_vec()));
    assert_eq!(get_report_reply(0x01), None);
    assert_eq!(get_report_reply(0x0a), None);
    assert_eq!(CALIBRATION_INFO[0], 0x05);
    assert_eq!(PAIRING_INFO[0], 0x09);
    assert_eq!(FIRMWARE_INFO[0], 0x20);
    assert_eq!(REPORT_DESCRIPTOR.len(), 273);
    assert_eq!(*REPORT_DESCRIPTOR.last().unwrap(), 0xc0);
}
