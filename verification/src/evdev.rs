use vstd::prelude::*;
use crate::buttons::Buttons;

verus! {

/// The keys of the evdev gamepad that the Steam Controller is shown as,
/// named after the Linux input event codes.
#[derive(Clone, Copy, Debug, PartialEq, Eq, Structural)]
pub enum GamepadKey {
    BtnSouth,
    BtnEast,
    BtnWest,
    BtnNorth,
    BtnTr,
    BtnTl,
    BtnTr2,
    BtnTl2,
    Btn0,
    Btn1,
    Btn2,
    Btn3,
    Btn4,
    Btn5,
    Btn6,
    Btn7,
    BtnThumbl,
    BtnThumbr,
    BtnDpadUp,
    BtnDpadDown,
    BtnDpadLeft,
    BtnDpadRight,
    BtnStart,
    BtnSelect,
    BtnMode,
    BtnBase,
}

/// The absolute axes of the evdev devices, named after the Linux input event
/// codes.
#[derive(Clone, Copy, Debug, PartialEq, Eq, Structural)]
pub enum AbsAxis {
    X,
    Y,
    Z,
    Rx,
    Ry,
    Rz,
    Hat0X,
    Hat0Y,
    Hat1X,
    Hat1Y,
    Hat2X,
    Hat2Y,
    Pressure,
    MtPressure,
}

/// The gamepad key of a single Steam Controller button, if it has one: the
/// face buttons, shoulders, triggers, D-pad, stick clicks, start, select and
/// the Steam and quick-access buttons have their usual keys; the rear buttons,
/// pad clicks and grips take the numbered keys; touches and unknown bits have
/// none.
pub open spec fn gamepad_key_of(b: u32) -> Option<GamepadKey> {
    if b == Buttons::BTN_A { Some(GamepadKey::BtnSouth) }
    else if b == Buttons::BTN_B { Some(GamepadKey::BtnEast) }
    else if b == Buttons::BTN_X { Some(GamepadKey::BtnWest) }
    else if b == Buttons::BTN_Y { Some(GamepadKey::BtnNorth) }
    else if b == Buttons::BTN_R1 { Some(GamepadKey::BtnTr) }
    else if b == Buttons::BTN_L1 { Some(GamepadKey::BtnTl) }
    else if b == Buttons::BTN_R2 { Some(GamepadKey::BtnTr2) }
    else if b == Buttons::BTN_L2 { Some(GamepadKey::BtnTl2) }
    else if b == Buttons::BTN_R4 { Some(GamepadKey::Btn0) }
    else if b == Buttons::BTN_L4 { Some(GamepadKey::Btn1) }
    else if b == Buttons::BTN_R5 { Some(GamepadKey::Btn2) }
    else if b == Buttons::BTN_L5 { Some(GamepadKey::Btn3) }
    else if b == Buttons::BTN_RIGHT_PAD_CLICK { Some(GamepadKey::Btn4) }
    else if b == Buttons::BTN_LEFT_PAD_CLICK { Some(GamepadKey::Btn5) }
    else if b == Buttons::BTN_GRIPR { Some(GamepadKey::Btn6) }
    else if b == Buttons::BTN_GRIPL { Some(GamepadKey::Btn7) }
    else if b == Buttons::BTN_THUMBL { Some(GamepadKey::BtnThumbl) }
    else if b == Buttons::BTN_THUMBR { Some(GamepadKey::BtnThumbr) }
    else if b == Buttons::BTN_DPAD_UP { Some(GamepadKey::BtnDpadUp) }
    else if b == Buttons::BTN_DPAD_DOWN { Some(GamepadKey::BtnDpadDown) }
    else if b == Buttons::BTN_DPAD_LEFT { Some(GamepadKey::BtnDpadLeft) }
    else if b == Buttons::BTN_DPAD_RIGHT { Some(GamepadKey::BtnDpadRight) }
    else if b == Buttons::BTN_START { Some(GamepadKey::BtnStart) }
    else if b == Buttons::BTN_SELECT { Some(GamepadKey::BtnSelect) }
    else if b == Buttons::BTN_STEAM { Some(GamepadKey::BtnMode) }
    else if b == Buttons::BTN_QUICK_ACCESS { Some(GamepadKey::BtnBase) }
    else { None }
}

/// Each Steam Controller button is sent as the key named for it: A, B, X
/// and Y as south, east, west and north; R1, L1, R2 and L2 as the right and
/// left shoulders and triggers; R4, L4, R5, L5, the right and left pad clicks
/// and the right and left grips as keys 0 to 7; the stick clicks, D-pad
/// directions, start and select as their own keys; the Steam button as mode
/// and quick access as base. Anything else, touches and sets of several
/// buttons among them, is sent as no key.
pub proof fn lemma_gamepad_key_table(b: u32)
    ensures
        b == Buttons::BTN_A ==> gamepad_key_of(b) == Some(GamepadKey::BtnSouth),
        b == Buttons::BTN_B ==> gamepad_key_of(b) == Some(GamepadKey::BtnEast),
        b == Buttons::BTN_X ==> gamepad_key_of(b) == Some(GamepadKey::BtnWest),
        b == Buttons::BTN_Y ==> gamepad_key_of(b) == Some(GamepadKey::BtnNorth),
        b == Buttons::BTN_R1 ==> gamepad_key_of(b) == Some(GamepadKey::BtnTr),
        b == Buttons::BTN_L1 ==> gamepad_key_of(b) == Some(GamepadKey::BtnTl),
        b == Buttons::BTN_R2 ==> gamepad_key_of(b) == Some(GamepadKey::BtnTr2),
        b == Buttons::BTN_L2 ==> gamepad_key_of(b) == Some(GamepadKey::BtnTl2),
        b == Buttons::BTN_R4 ==> gamepad_key_of(b) == Some(GamepadKey::Btn0),
        b == Buttons::BTN_L4 ==> gamepad_key_of(b) == Some(GamepadKey::Btn1),
        b == Buttons::BTN_R5 ==> gamepad_key_of(b) == Some(GamepadKey::Btn2),
        b == Buttons::BTN_L5 ==> gamepad_key_of(b) == Some(GamepadKey::Btn3),
        b == Buttons::BTN_RIGHT_PAD_CLICK ==> gamepad_key_of(b) == Some(GamepadKey::Btn4),
        b == Buttons::BTN_LEFT_PAD_CLICK ==> gamepad_key_of(b) == Some(GamepadKey::Btn5),
        b == Buttons::BTN_GRIPR ==> gamepad_key_of(b) == Some(GamepadKey::Btn6),
        b == Buttons::BTN_GRIPL ==> gamepad_key_of(b) == Some(GamepadKey::Btn7),
        b == Buttons::BTN_THUMBL ==> gamepad_key_of(b) == Some(GamepadKey::BtnThumbl),
        b == Buttons::BTN_THUMBR ==> gamepad_key_of(b) == Some(GamepadKey::BtnThumbr),
        b == Buttons::BTN_DPAD_UP ==> gamepad_key_of(b) == Some(GamepadKey::BtnDpadUp),
        b == Buttons::BTN_DPAD_DOWN ==> gamepad_key_of(b) == Some(GamepadKey::BtnDpadDown),
        b == Buttons::BTN_DPAD_LEFT ==> gamepad_key_of(b) == Some(GamepadKey::BtnDpadLeft),
        b == Buttons::BTN_DPAD_RIGHT ==> gamepad_key_of(b) == Some(GamepadKey::BtnDpadRight),
        b == Buttons::BTN_START ==> gamepad_key_of(b) == Some(GamepadKey::BtnStart),
        b == Buttons::BTN_SELECT ==> gamepad_key_of(b) == Some(GamepadKey::BtnSelect),
        b == Buttons::BTN_STEAM ==> gamepad_key_of(b) == Some(GamepadKey::BtnMode),
        b == Buttons::BTN_QUICK_ACCESS ==> gamepad_key_of(b) == Some(GamepadKey::BtnBase),
        (b != Buttons::BTN_A && b != Buttons::BTN_B && b != Buttons::BTN_X && b != Buttons::BTN_Y && b != Buttons::BTN_R1 && b != Buttons::BTN_L1 && b != Buttons::BTN_R2 && b != Buttons::BTN_L2 && b != Buttons::BTN_R4 && b != Buttons::BTN_L4 && b != Buttons::BTN_R5 && b != Buttons::BTN_L5 && b != Buttons::BTN_RIGHT_PAD_CLICK && b != Buttons::BTN_LEFT_PAD_CLICK && b != Buttons::BTN_GRIPR && b != Buttons::BTN_GRIPL && b != Buttons::BTN_THUMBL && b != Buttons::BTN_THUMBR && b != Buttons::BTN_DPAD_UP && b != Buttons::BTN_DPAD_DOWN && b != Buttons::BTN_DPAD_LEFT && b != Buttons::BTN_DPAD_RIGHT && b != Buttons::BTN_START && b != Buttons::BTN_SELECT && b != Buttons::BTN_STEAM && b != Buttons::BTN_QUICK_ACCESS) ==> gamepad_key_of(b) is None,
{
}

/// The gamepad key that a button event is sent as; `None` for buttons
/// without a key and for sets of more than one button.
pub fn gamepad_key(button: Buttons) -> (r: Option<GamepadKey>)
    ensures
        r == gamepad_key_of(button@),
        button@ == Buttons::BTN_A ==> r == Some(GamepadKey::BtnSouth),
        button@ == Buttons::BTN_B ==> r == Some(GamepadKey::BtnEast),
        button@ == Buttons::BTN_X ==> r == Some(GamepadKey::BtnWest),
        button@ == Buttons::BTN_Y ==> r == Some(GamepadKey::BtnNorth),
        button@ == Buttons::BTN_R1 ==> r == Some(GamepadKey::BtnTr),
        button@ == Buttons::BTN_L1 ==> r == Some(GamepadKey::BtnTl),
        button@ == Buttons::BTN_R2 ==> r == Some(GamepadKey::BtnTr2),
        button@ == Buttons::BTN_L2 ==> r == Some(GamepadKey::BtnTl2),
        button@ == Buttons::BTN_R4 ==> r == Some(GamepadKey::Btn0),
        button@ == Buttons::BTN_L4 ==> r == Some(GamepadKey::Btn1),
        button@ == Buttons::BTN_R5 ==> r == Some(GamepadKey::Btn2),
        button@ == Buttons::BTN_L5 ==> r == Some(GamepadKey::Btn3),
        button@ == Buttons::BTN_RIGHT_PAD_CLICK ==> r == Some(GamepadKey::Btn4),
        button@ == Buttons::BTN_LEFT_PAD_CLICK ==> r == Some(GamepadKey::Btn5),
        button@ == Buttons::BTN_GRIPR ==> r == Some(GamepadKey::Btn6),
        button@ == Buttons::BTN_GRIPL ==> r == Some(GamepadKey::Btn7),
        button@ == Buttons::BTN_THUMBL ==> r == Some(GamepadKey::BtnThumbl),
        button@ == Buttons::BTN_THUMBR ==> r == Some(GamepadKey::BtnThumbr),
        button@ == Buttons::BTN_DPAD_UP ==> r == Some(GamepadKey::BtnDpadUp),
        button@ == Buttons::BTN_DPAD_DOWN ==> r == Some(GamepadKey::BtnDpadDown),
        button@ == Buttons::BTN_DPAD_LEFT ==> r == Some(GamepadKey::BtnDpadLeft),
        button@ == Buttons::BTN_DPAD_RIGHT ==> r == Some(GamepadKey::BtnDpadRight),
        button@ == Buttons::BTN_START ==> r == Some(GamepadKey::BtnStart),
        button@ == Buttons::BTN_SELECT ==> r == Some(GamepadKey::BtnSelect),
        button@ == Buttons::BTN_STEAM ==> r == Some(GamepadKey::BtnMode),
        button@ == Buttons::BTN_QUICK_ACCESS ==> r == Some(GamepadKey::BtnBase),
        (button@ != Buttons::BTN_A && button@ != Buttons::BTN_B && button@ != Buttons::BTN_X && button@ != Buttons::BTN_Y && button@ != Buttons::BTN_R1 && button@ != Buttons::BTN_L1 && button@ != Buttons::BTN_R2 && button@ != Buttons::BTN_L2 && button@ != Buttons::BTN_R4 && button@ != Buttons::BTN_L4 && button@ != Buttons::BTN_R5 && button@ != Buttons::BTN_L5 && button@ != Buttons::BTN_RIGHT_PAD_CLICK && button@ != Buttons::BTN_LEFT_PAD_CLICK && button@ != Buttons::BTN_GRIPR && button@ != Buttons::BTN_GRIPL && button@ != Buttons::BTN_THUMBL && button@ != Buttons::BTN_THUMBR && button@ != Buttons::BTN_DPAD_UP && button@ != Buttons::BTN_DPAD_DOWN && button@ != Buttons::BTN_DPAD_LEFT && button@ != Buttons::BTN_DPAD_RIGHT && button@ != Buttons::BTN_START && button@ != Buttons::BTN_SELECT && button@ != Buttons::BTN_STEAM && button@ != Buttons::BTN_QUICK_ACCESS) ==> r is None,
{
    proof {
        lemma_gamepad_key_table(button@);
    }
    let b = button.bits();
    if b == Buttons::BTN_A { Some(GamepadKey::BtnSouth) }
    else if b == Buttons::BTN_B { Some(GamepadKey::BtnEast) }
    else if b == Buttons::BTN_X { Some(GamepadKey::BtnWest) }
    else if b == Buttons::BTN_Y { Some(GamepadKey::BtnNorth) }
    else if b == Buttons::BTN_R1 { Some(GamepadKey::BtnTr) }
    else if b == Buttons::BTN_L1 { Some(GamepadKey::BtnTl) }
    else if b == Buttons::BTN_R2 { Some(GamepadKey::BtnTr2) }
    else if b == Buttons::BTN_L2 { Some(GamepadKey::BtnTl2) }
    else if b == Buttons::BTN_R4 { Some(GamepadKey::Btn0) }
    else if b == Buttons::BTN_L4 { Some(GamepadKey::Btn1) }
    else if b == Buttons::BTN_R5 { Some(GamepadKey::Btn2) }
    else if b == Buttons::BTN_L5 { Some(GamepadKey::Btn3) }
    else if b == Buttons::BTN_RIGHT_PAD_CLICK { Some(GamepadKey::Btn4) }
    else if b == Buttons::BTN_LEFT_PAD_CLICK { Some(GamepadKey::Btn5) }
    else if b == Buttons::BTN_GRIPR { Some(GamepadKey::Btn6) }
    else if b == Buttons::BTN_GRIPL { Some(GamepadKey::Btn7) }
    else if b == Buttons::BTN_THUMBL { Some(GamepadKey::BtnThumbl) }
    else if b == Buttons::BTN_THUMBR { Some(GamepadKey::BtnThumbr) }
    else if b == Buttons::BTN_DPAD_UP { Some(GamepadKey::BtnDpadUp) }
    else if b == Buttons::BTN_DPAD_DOWN { Some(GamepadKey::BtnDpadDown) }
    else if b == Buttons::BTN_DPAD_LEFT { Some(GamepadKey::BtnDpadLeft) }
    else if b == Buttons::BTN_DPAD_RIGHT { Some(GamepadKey::BtnDpadRight) }
    else if b == Buttons::BTN_START { Some(GamepadKey::BtnStart) }
    else if b == Buttons::BTN_SELECT { Some(GamepadKey::BtnSelect) }
    else if b == Buttons::BTN_STEAM { Some(GamepadKey::BtnMode) }
    else if b == Buttons::BTN_QUICK_ACCESS { Some(GamepadKey::BtnBase) }
    else { None }
}

/// No two buttons are sent as the same key.
pub proof fn lemma_gamepad_keys_distinct(a: u32, b: u32)
    requires
        gamepad_key_of(a) is Some,
        gamepad_key_of(a) == gamepad_key_of(b),
    ensures
        a == b,
{
}

/// The keys that the evdev gamepad declares.
pub fn gamepad_keys() -> (r: [GamepadKey; 26])
    ensures
        forall|b: u32| #[trigger] gamepad_key_of(b) is Some ==> r@.contains(gamepad_key_of(b)->0),
{
    let r = [
        GamepadKey::BtnTr2,
        GamepadKey::BtnTl2,
        GamepadKey::BtnTr,
        GamepadKey::BtnTl,
        GamepadKey::BtnSouth,
        GamepadKey::BtnEast,
        GamepadKey::BtnWest,
        GamepadKey::BtnNorth,
        GamepadKey::Btn0,
        GamepadKey::Btn1,
        GamepadKey::Btn2,
        GamepadKey::Btn3,
        GamepadKey::Btn4,
        GamepadKey::Btn5,
        GamepadKey::Btn6,
        GamepadKey::Btn7,
        GamepadKey::BtnDpadUp,
        GamepadKey::BtnDpadRight,
        GamepadKey::BtnDpadLeft,
        GamepadKey::BtnDpadDown,
        GamepadKey::BtnSelect,
        GamepadKey::BtnBase,
        GamepadKey::BtnMode,
        GamepadKey::BtnStart,
        GamepadKey::BtnThumbl,
        GamepadKey::BtnThumbr,
    ];
    assert forall|b: u32| #[trigger] gamepad_key_of(b) is Some implies r@.contains(
        gamepad_key_of(b)->0,
    ) by {
        let k = gamepad_key_of(b)->0;
        let i: int = choose|i: int| 0 <= i < 26 && r@[i] == k;
        assert(r@[i] == k);
    }
    r
}

/// The value of a key event: 1 for pressed, 0 for released.
pub fn key_state_value(pressed: bool) -> (r: i32)
    ensures
        r == if pressed { 1i32 } else { 0i32 },
{
    if pressed { 1 } else { 0 }
}

/// The gamepad axis events for the triggers.
pub fn trigger_axis_events(left_trigger: i16, right_trigger: i16) -> (r: [(AbsAxis, i32); 2])
    ensures
        r@ == seq![(AbsAxis::Hat2X, left_trigger as i32), (AbsAxis::Hat2Y, right_trigger as i32)],
{
    let r = [(AbsAxis::Hat2X, left_trigger as i32), (AbsAxis::Hat2Y, right_trigger as i32)];
    assert(r@ =~= seq![(AbsAxis::Hat2X, left_trigger as i32), (AbsAxis::Hat2Y, right_trigger as i32)]);
    r
}

/// The gamepad axis events for the sticks: left on X and Y, right on RX and RY.
pub fn joystick_axis_events(
    left_joystick_x: i16,
    left_joystick_y: i16,
    right_joystick_x: i16,
    right_joystick_y: i16,
) -> (r: [(AbsAxis, i32); 4])
    ensures
        r@ == seq![
            (AbsAxis::X, left_joystick_x as i32),
            (AbsAxis::Y, left_joystick_y as i32),
            (AbsAxis::Rx, right_joystick_x as i32),
            (AbsAxis::Ry, right_joystick_y as i32),
        ],
{
    let r = [
        (AbsAxis::X, left_joystick_x as i32),
        (AbsAxis::Y, left_joystick_y as i32),
        (AbsAxis::Rx, right_joystick_x as i32),
        (AbsAxis::Ry, right_joystick_y as i32),
    ];
    assert(r@ =~= seq![
        (AbsAxis::X, left_joystick_x as i32),
        (AbsAxis::Y, left_joystick_y as i32),
        (AbsAxis::Rx, right_joystick_x as i32),
        (AbsAxis::Ry, right_joystick_y as i32),
    ]);
    r
}

/// The gamepad axis events for the pads: the left pad on HAT0 and PRESSURE,
/// the right pad on HAT1 and MT_PRESSURE.
pub fn pad_axis_events(
    left_pad_x: i16,
    left_pad_y: i16,
    left_pad_pressure: i16,
    right_pad_x: i16,
    right_pad_y: i16,
    right_pad_pressure: i16,
) -> (r: [(AbsAxis, i32); 6])
    ensures
        r@ == seq![
            (AbsAxis::Hat0X, left_pad_x as i32),
            (AbsAxis::Hat0Y, left_pad_y as i32),
            (AbsAxis::Pressure, left_pad_pressure as i32),
            (AbsAxis::Hat1X, right_pad_x as i32),
            (AbsAxis::Hat1Y, right_pad_y as i32),
            (AbsAxis::MtPressure, right_pad_pressure as i32),
        ],
{
    let r = [
        (AbsAxis::Hat0X, left_pad_x as i32),
        (AbsAxis::Hat0Y, left_pad_y as i32),
        (AbsAxis::Pressure, left_pad_pressure as i32),
        (AbsAxis::Hat1X, right_pad_x as i32),
        (AbsAxis::Hat1Y, right_pad_y as i32),
        (AbsAxis::MtPressure, right_pad_pressure as i32),
    ];
    assert(r@ =~= seq![
        (AbsAxis::Hat0X, left_pad_x as i32),
        (AbsAxis::Hat0Y, left_pad_y as i32),
        (AbsAxis::Pressure, left_pad_pressure as i32),
        (AbsAxis::Hat1X, right_pad_x as i32),
        (AbsAxis::Hat1Y, right_pad_y as i32),
        (AbsAxis::MtPressure, right_pad_pressure as i32),
    ]);
    r
}

/// The motion-sensor events: the timestamp as a 32-bit signed misc value
/// (wrapping above `i32::MAX`), the accelerometer on X, Y and Z and the
/// gyroscope on RX, RY and RZ.
pub fn motion_sensor_events(
    timestamp_us: u32,
    accel_x: i16,
    accel_y: i16,
    accel_z: i16,
    gyro_x: i16,
    gyro_y: i16,
    gyro_z: i16,
) -> (r: (i32, [(AbsAxis, i32); 6]))
    ensures
        r.0 == (if timestamp_us <= i32::MAX { timestamp_us as int } else { timestamp_us - 0x1_0000_0000 }),
        r.1@ == seq![
            (AbsAxis::X, accel_x as i32),
            (AbsAxis::Y, accel_y as i32),
            (AbsAxis::Z, accel_z as i32),
            (AbsAxis::Rx, gyro_x as i32),
            (AbsAxis::Ry, gyro_y as i32),
            (AbsAxis::Rz, gyro_z as i32),
        ],
{
    let ts: i32 = if timestamp_us <= i32::MAX as u32 {
        timestamp_us as i32
    } else {
        (timestamp_us as i64 - 0x1_0000_0000) as i32
    };
    let r = [
        (AbsAxis::X, accel_x as i32),
        (AbsAxis::Y, accel_y as i32),
        (AbsAxis::Z, accel_z as i32),
        (AbsAxis::Rx, gyro_x as i32),
        (AbsAxis::Ry, gyro_y as i32),
        (AbsAxis::Rz, gyro_z as i32),
    ];
    assert(r@ =~= seq![
        (AbsAxis::X, accel_x as i32),
        (AbsAxis::Y, accel_y as i32),
        (AbsAxis::Z, accel_z as i32),
        (AbsAxis::Rx, gyro_x as i32),
        (AbsAxis::Ry, gyro_y as i32),
        (AbsAxis::Rz, gyro_z as i32),
    ]);
    (ts, r)
}

} // verus!
