use vstd::prelude::*;
use crate::buttons::{Buttons, contained_buttons, lemma_contained_buttons_union, union_of};
use crate::little_endian::{i16_from_le, i16_from_le_bytes, u32_from_le, u32_from_le_bytes};

verus! {

/// The USB vendor id of Valve.
pub const STEAM_CONTROLLER_VENDOR_ID: u16 = 0x28de;
/// The USB product id of the Steam Controller.
pub const STEAM_CONTROLLER_PRODUCT_ID: u16 = 0x1304;

/// The first byte of every feature report that carries a command.
pub const FEATURE_REPORT_CMD: u8 = 0x01;
/// Settings that a `SetSettings` payload can address.
pub const SETTING_LEFT_TRACKPAD_MODE: u8 = 0x07;
pub const SETTING_RIGHT_TRACKPAD_MODE: u8 = 0x08;
pub const SETTING_LEFT_TRACKPAD_CLICK_PRESSURE: u8 = 52;
pub const SETTING_RIGHT_TRACKPAD_CLICK_PRESSURE: u8 = 53;
pub const SETTING_STEAM_WATCHDOG_ENABLE: u8 = 71;

/// The length that a command's feature report is padded to.
pub const FEATURE_REPORT_LEN: usize = 64;

/// How many times a feature report is sent before giving up.
pub const FEATURE_REPORT_ATTEMPTS: i32 = 50;

/// The report id of the Steam Controller's input report.
pub const INPUT_REPORT_ID: u8 = 66;

/// The number of bytes of an input report that are read.
pub const INPUT_REPORT_LEN: usize = 46;

/// A command that the Steam Controller accepts in a feature report.
#[derive(Clone, Copy, Debug, PartialEq, Eq, Structural)]
pub enum Command {
    SetDigitalMappings,
    ClearDigitalMappings,
    GetDigitalMappings,
    SetDefaultMappings,
    SetSettings,
    GetSettings,
    Unknown1,
    Unknown2,
    Unknown3,
}

/// The byte that stands for a command on the wire.
pub open spec fn command_code(c: Command) -> u8 {
    match c {
        Command::SetDigitalMappings => 0x80,
        Command::ClearDigitalMappings => 0x81,
        Command::GetDigitalMappings => 0x82,
        Command::SetDefaultMappings => 0x85,
        Command::SetSettings => 0x87,
        Command::GetSettings => 0x88,
        Command::Unknown1 => 0xe2,
        Command::Unknown2 => 0xdc,
        Command::Unknown3 => 0xc1,
    }
}

impl Command {
    /// The byte that stands for this command on the wire.
    pub fn code(self) -> (r: u8)
        ensures
            r == command_code(self),
            self == Command::SetDigitalMappings ==> r == 0x80,
            self == Command::ClearDigitalMappings ==> r == 0x81,
            self == Command::GetDigitalMappings ==> r == 0x82,
            self == Command::SetDefaultMappings ==> r == 0x85,
            self == Command::SetSettings ==> r == 0x87,
            self == Command::GetSettings ==> r == 0x88,
            self == Command::Unknown1 ==> r == 0xe2,
            self == Command::Unknown2 ==> r == 0xdc,
            self == Command::Unknown3 ==> r == 0xc1,
    {
        match self {
            Command::SetDigitalMappings => 0x80,
            Command::ClearDigitalMappings => 0x81,
            Command::GetDigitalMappings => 0x82,
            Command::SetDefaultMappings => 0x85,
            Command::SetSettings => 0x87,
            Command::GetSettings => 0x88,
            Command::Unknown1 => 0xe2,
            Command::Unknown2 => 0xdc,
            Command::Unknown3 => 0xc1,
        }
    }
}

/// The feature report that sends `command` with `payload`: the command
/// marker, the command's code, the payload's length (modulo 256) and the
/// payload, padded with zeros to 64 bytes when it is shorter.
pub open spec fn feature_report_bytes(command: Command, payload: Seq<u8>) -> Seq<u8> {
    let header = seq![FEATURE_REPORT_CMD, command_code(command), (payload.len() % 256) as u8];
    let len = header.len() + payload.len();
    let padding = if len < FEATURE_REPORT_LEN { (FEATURE_REPORT_LEN - len) as nat } else { 0nat };
    header + payload + Seq::new(padding, |i: int| 0u8)
}

/// Builds the feature report that sends `command` with `payload`.
pub fn feature_report(command: Command, payload: &[u8]) -> (r: Vec<u8>)
    requires
        payload@.len() + 3 <= usize::MAX,
    ensures
        r@ == feature_report_bytes(command, payload@),
        r@.len() == if payload@.len() + 3 < 64 { 64 } else { payload@.len() + 3 },
        r@[0] == 0x01,
        r@[1] == command_code(command),
        r@[2] == (payload@.len() % 256) as u8,
        r@.subrange(3, 3 + payload@.len() as int) == payload@,
        forall|k: int| 3 + payload@.len() <= k < r@.len() ==> r@[k] == 0u8,
{
    let size = payload.len();
    let mut buf: Vec<u8> = Vec::new();
    buf.push(FEATURE_REPORT_CMD);
    buf.push(command.code());
    buf.push((size % 256) as u8);
    let ghost header = buf@;
    let mut i: usize = 0;
    while i < size
        invariant
            size == payload@.len(),
            0 <= i <= size,
            header == seq![FEATURE_REPORT_CMD, command_code(command), (size % 256) as u8],
            buf@ == header + payload@.take(i as int),
        decreases size - i,
    {
        buf.push(payload[i]);
        i = i + 1;
        assert(payload@.take(i as int) == payload@.take(i - 1).push(payload@[i - 1]));
    }
    assert(payload@.take(size as int) == payload@);
    let ghost body = buf@;
    while buf.len() < FEATURE_REPORT_LEN
        invariant
            body == header + payload@,
            body.len() <= buf@.len(),
            buf@.len() <= FEATURE_REPORT_LEN || buf@.len() == body.len(),
            buf@.subrange(0, body.len() as int) == body,
            forall|k: int| body.len() <= k < buf@.len() ==> buf@[k] == 0u8,
        decreases FEATURE_REPORT_LEN - buf.len(),
    {
        buf.push(0x00);
    }
    assert(buf@ =~= feature_report_bytes(command, payload@));
    proof {
        lemma_feature_report_shape(command, payload@);
    }
    buf
}

/// A command's feature report is at least 64 bytes long, never cuts the
/// payload, and starts with the command marker, the command's code and the
/// payload's length.
pub proof fn lemma_feature_report_shape(command: Command, payload: Seq<u8>)
    ensures
        ({
            let r = feature_report_bytes(command, payload);
            &&& r.len() == if payload.len() + 3 < 64 { 64 } else { payload.len() + 3 }
            &&& r[0] == FEATURE_REPORT_CMD
            &&& r[1] == command_code(command)
            &&& r[2] == (payload.len() % 256) as u8
            &&& r.subrange(3, 3 + payload.len() as int) == payload
            &&& forall|k: int| 3 + payload.len() <= k < r.len() ==> r[k] == 0u8
        }),
{
    let r = feature_report_bytes(command, payload);
    assert(r.subrange(3, 3 + payload.len() as int) =~= payload);
}

/// The output report that sets the rumble motors: report 0x80, zero
/// intensity, the left and right strengths little end first, then the left
/// and right gains.
pub open spec fn rumble_report_bytes(left: u16, right: u16) -> Seq<u8> {
    seq![
        0x80u8,
        0x00, 0x00,
        (left % 256) as u8, (left / 256) as u8,
        (right % 256) as u8, (right / 256) as u8,
        2, 0,
        0x00,
    ]
}

/// Builds the output report that sets the rumble motors.
pub fn rumble_report(left_rumble: u16, right_rumble: u16) -> (r: [u8; 10])
    ensures
        r@ == rumble_report_bytes(left_rumble, right_rumble),
        r[0] == 0x80,
        r[3] as int + 256 * r[4] as int == left_rumble,
        r[5] as int + 256 * r[6] as int == right_rumble,
        r[7] == 2 && r[8] == 0,
{
    let r = [
        0x80,
        0x00, 0x00,
        (left_rumble & 0xff) as u8, (left_rumble >> 8) as u8,
        (right_rumble & 0xff) as u8, (right_rumble >> 8) as u8,
        2,
        0,
        0x00,
    ];
    assert((left_rumble & 0xff) as u8 == (left_rumble % 256) as u8 && (left_rumble >> 8) as u8 == (
    left_rumble / 256) as u8) by (bit_vector);
    assert((right_rumble & 0xff) as u8 == (right_rumble % 256) as u8 && (right_rumble >> 8) as u8
        == (right_rumble / 256) as u8) by (bit_vector);
    assert(r@ =~= rumble_report_bytes(left_rumble, right_rumble));
    r
}

/// The strengths that a receiver reads back from a rumble report.
pub open spec fn decode_rumble_report(b: Seq<u8>) -> (u16, u16) {
    ((b[3] as int + 256 * b[4] as int) as u16, (b[5] as int + 256 * b[6] as int) as u16)
}

/// The rumble report carries both strengths unchanged.
pub proof fn lemma_rumble_report_roundtrip(left: u16, right: u16)
    ensures
        decode_rumble_report(rumble_report_bytes(left, right)) == (left, right),
{
}

/// What is left of the attempts to send a feature report after one more has
/// failed, or `None` when there are none left.
pub open spec fn retries_after_failure_spec(retries: int) -> Option<int> {
    if retries - 1 <= 0 { None } else { Some(retries - 1) }
}

/// Counts one failed attempt to send a feature report.
pub fn retries_after_failure(retries: i32) -> (r: Option<i32>)
    requires
        retries > i32::MIN,
    ensures
        r matches Some(n) ==> retries_after_failure_spec(retries as int) == Some(n as int),
        r is None ==> retries_after_failure_spec(retries as int) is None,
{
    let left = retries - 1;
    if left <= 0 { None } else { Some(left) }
}

/// How many attempts are made, all failing, before giving up when `retries`
/// are left.
pub open spec fn failed_attempts_before_giving_up(retries: int) -> int
    decreases retries,
{
    match retries_after_failure_spec(retries) {
        None => 1,
        Some(n) => if 0 <= n < retries { 1 + failed_attempts_before_giving_up(n) } else { 1 },
    }
}

/// Starting with `retries` attempts left, a feature report that keeps failing
/// is sent exactly `retries` times before giving up; so with
/// `FEATURE_REPORT_ATTEMPTS` it is sent 50 times.
pub proof fn lemma_feature_report_attempts(retries: int)
    requires
        retries >= 1,
    ensures
        failed_attempts_before_giving_up(retries) == retries,
    decreases retries,
{
    if retries > 1 {
        lemma_feature_report_attempts(retries - 1);
    }
}


/// A reading of a signed 16-bit value as the Steam Controller driver takes
/// it: the one value without a positive counterpart, -32768, is read as
/// -32767, so that every reading can be negated.
pub open spec fn steam_i16(v: i16) -> i16 {
    if v == i16::MIN { (i16::MIN + 1) as i16 } else { v }
}

/// The steam reading of the two little-endian bytes at `off` in `buf`.
pub open spec fn steam_i16_at(buf: Seq<u8>, off: int) -> i16 {
    steam_i16(i16_from_le(buf[off], buf[off + 1]))
}

/// The slice handed to a reading did not hold exactly two bytes.
#[derive(Clone, Copy, Debug, PartialEq, Eq, Structural)]
pub struct WrongLength {
    pub len: usize,
}

/// Reads a signed 16-bit little-endian value the way the Steam Controller
/// driver does: -32768 becomes -32767. Fails unless `bytes` holds exactly two
/// bytes.
pub fn i16_from_le_bytes_steam(bytes: &[u8]) -> (r: Result<i16, WrongLength>)
    ensures
        bytes@.len() == 2 ==> r == Ok::<i16, WrongLength>(steam_i16_at(bytes@, 0)),
        bytes@.len() != 2 ==> r == Err::<i16, WrongLength>(WrongLength { len: bytes@.len() as usize }),
{
    if bytes.len() != 2 {
        return Err(WrongLength { len: bytes.len() });
    }
    Ok(steam_value(i16_from_le_bytes(bytes[0], bytes[1])))
}

fn steam_value(v: i16) -> (r: i16)
    ensures
        r == steam_i16(v),
{
    if v == i16::MIN { i16::MIN + 1 } else { v }
}

fn steam_value_at(buf: &[u8], off: usize) -> (r: i16)
    requires
        off + 1 < buf@.len(),
    ensures
        r == steam_i16_at(buf@, off as int),
{
    steam_value(i16_from_le_bytes(buf[off], buf[off + 1]))
}

/// A steam reading is never -32768, and leaves every other value as it is.
pub proof fn lemma_steam_i16(v: i16)
    ensures
        steam_i16(v) != i16::MIN,
        v != i16::MIN ==> steam_i16(v) == v,
        -(steam_i16(v) as int) == (-(steam_i16(v) as int)) as i16,
{
}

/// The readings of a Steam Controller input report.
#[derive(Clone, Copy, Debug, PartialEq, Eq)]
pub struct InputReport {
    pub buttons: Buttons,
    /// x and y of the left stick.
    pub left_stick: (i16, i16),
    /// x and y of the right stick.
    pub right_stick: (i16, i16),
    /// x, y and pressure of the left pad.
    pub left_pad: (i16, i16, i16),
    /// x, y and pressure of the right pad.
    pub right_pad: (i16, i16, i16),
    pub sensor_timestamp_us: u32,
    /// What is probably the accelerometer: x, y and z.
    pub accel: (i16, i16, i16),
    /// The gyroscope: x, y and z.
    pub gyro: (i16, i16, i16),
}

/// Whether `buf` holds an input report that is read: its report id is 66
/// and it has the 46 bytes that are read.
pub open spec fn is_input_report(buf: Seq<u8>) -> bool {
    buf.len() >= INPUT_REPORT_LEN && buf[0] == INPUT_REPORT_ID
}

/// `r` holds the readings of the input report in `buf`: the buttons in bytes
/// 2 to 5, then from byte 10 on two-byte steam readings of the sticks (x, y),
/// the left pad and the right pad (x, y, pressure), the 32-bit sensor
/// timestamp in bytes 30 to 33, then the accelerometer and the gyroscope
/// (x, y, z); all little end first.
pub open spec fn reads_input_report(r: InputReport, buf: Seq<u8>) -> bool {
    &&& r.buttons@ == u32_from_le(buf.subrange(2, 6))
    &&& r.left_stick == (steam_i16_at(buf, 10), steam_i16_at(buf, 12))
    &&& r.right_stick == (steam_i16_at(buf, 14), steam_i16_at(buf, 16))
    &&& r.left_pad == (steam_i16_at(buf, 18), steam_i16_at(buf, 20), steam_i16_at(buf, 22))
    &&& r.right_pad == (steam_i16_at(buf, 24), steam_i16_at(buf, 26), steam_i16_at(buf, 28))
    &&& r.sensor_timestamp_us == u32_from_le(buf.subrange(30, 34))
    &&& r.accel == (steam_i16_at(buf, 34), steam_i16_at(buf, 36), steam_i16_at(buf, 38))
    &&& r.gyro == (steam_i16_at(buf, 40), steam_i16_at(buf, 42), steam_i16_at(buf, 44))
}

/// Reads the Steam Controller input report in `buf`, if `buf` holds one.
pub fn parse_input_report(buf: &[u8]) -> (r: Option<InputReport>)
    ensures
        r is Some <==> is_input_report(buf@),
        r matches Some(rep) ==> reads_input_report(rep, buf@),
        r matches Some(rep) ==> rep.buttons@ == u32_from_le(buf@.subrange(2, 6)),
        r matches Some(rep) ==> rep.left_stick == (steam_i16_at(buf@, 10), steam_i16_at(buf@, 12)),
        r matches Some(rep) ==> rep.right_stick == (steam_i16_at(buf@, 14), steam_i16_at(buf@, 16)),
        r matches Some(rep) ==> rep.left_pad == (steam_i16_at(buf@, 18), steam_i16_at(buf@, 20), steam_i16_at(buf@, 22)),
        r matches Some(rep) ==> rep.right_pad == (steam_i16_at(buf@, 24), steam_i16_at(buf@, 26), steam_i16_at(buf@, 28)),
        r matches Some(rep) ==> rep.sensor_timestamp_us == u32_from_le(buf@.subrange(30, 34)),
        r matches Some(rep) ==> rep.accel == (steam_i16_at(buf@, 34), steam_i16_at(buf@, 36), steam_i16_at(buf@, 38)),
        r matches Some(rep) ==> rep.gyro == (steam_i16_at(buf@, 40), steam_i16_at(buf@, 42), steam_i16_at(buf@, 44)),
{
    if buf.len() < INPUT_REPORT_LEN || buf[0] != INPUT_REPORT_ID {
        return None;
    }
    let buttons = Buttons::from_bits_truncate(u32_from_le_bytes(buf[2], buf[3], buf[4], buf[5]));
    let rep = InputReport {
        buttons,
        left_stick: (steam_value_at(buf, 10), steam_value_at(buf, 12)),
        right_stick: (steam_value_at(buf, 14), steam_value_at(buf, 16)),
        left_pad: (steam_value_at(buf, 18), steam_value_at(buf, 20), steam_value_at(buf, 22)),
        right_pad: (steam_value_at(buf, 24), steam_value_at(buf, 26), steam_value_at(buf, 28)),
        sensor_timestamp_us: u32_from_le_bytes(buf[30], buf[31], buf[32], buf[33]),
        accel: (steam_value_at(buf, 34), steam_value_at(buf, 36), steam_value_at(buf, 38)),
        gyro: (steam_value_at(buf, 40), steam_value_at(buf, 42), steam_value_at(buf, 44)),
    };
    assert(buf@.subrange(2, 6) =~= seq![buf@[2], buf@[3], buf@[4], buf@[5]]);
    assert(buf@.subrange(30, 34) =~= seq![buf@[30], buf@[31], buf@[32], buf@[33]]);
    Some(rep)
}

/// The buttons released and the buttons pressed between two readings.
pub fn button_changes(last: Buttons, now: Buttons) -> (r: (Buttons, Buttons))
    ensures
        r.0@ == last@ & !now@,
        r.1@ == now@ & !last@,
{
    (last.difference(now), now.difference(last))
}

/// Between two readings no button is both released and pressed, and taking
/// the released buttons away from the last reading and adding the pressed
/// ones gives the new reading.
pub proof fn lemma_button_changes(last: u32, now: u32)
    ensures
        (last & !now) & (now & !last) == 0,
        (last & !(last & !now)) | (now & !last) == now,
        (last & !now) & now == 0,
        (now & !last) & last == 0,
{
    assert((last & !now) & (now & !last) == 0) by (bit_vector);
    assert((last & !(last & !now)) | (now & !last) == now) by (bit_vector);
    assert((last & !now) & now == 0) by (bit_vector);
    assert((now & !last) & last == 0) by (bit_vector);
}


/// What a Steam Controller input report asks of the virtual controller.
#[derive(Clone, Copy, Debug, PartialEq, Eq)]
#[allow(inconsistent_fields)]
pub enum ControllerEvent {
    /// One button went down (`pressed`) or up.
    Button { button: Buttons, pressed: bool },
    /// The sticks' x and y.
    Joysticks { left: (i16, i16), right: (i16, i16) },
    /// The pads' x, y and pressure.
    Touchpads { left: (i16, i16, i16), right: (i16, i16, i16) },
    /// The motion sensors' timestamp, accelerometer and gyroscope.
    MotionSensors { timestamp_us: u32, accel: (i16, i16, i16), gyro: (i16, i16, i16) },
}

/// `e` is the event of the single button `bits` going down (`pressed`) or up.
pub open spec fn is_button_event(e: ControllerEvent, bits: u32, pressed: bool) -> bool {
    e matches ControllerEvent::Button { button, pressed: p } && button@ == bits && p == pressed
}

/// `events` is what the input report in `buf` asks for after the buttons
/// `last`: an event for each released button, then for each pressed button
/// (each in declaration order), then the sticks, the pads and the motion
/// sensors.
pub open spec fn report_events_spec(last: u32, buf: Seq<u8>, events: Seq<ControllerEvent>) -> bool {
    let now = u32_from_le(buf.subrange(2, 6));
    let released = contained_buttons(last & !now);
    let pressed = contained_buttons(now & !last);
    let n = (released.len() + pressed.len()) as int;
    &&& events.len() == n + 3
    &&& forall|k: int| 0 <= k < released.len() ==> is_button_event(#[trigger] events[k], released[k], false)
    &&& forall|k: int|
        0 <= k < pressed.len() ==> is_button_event(#[trigger] events[released.len() + k], pressed[k], true)
    &&& events[n] == ControllerEvent::Joysticks {
        left: (steam_i16_at(buf, 10), steam_i16_at(buf, 12)),
        right: (steam_i16_at(buf, 14), steam_i16_at(buf, 16)),
    }
    &&& events[n + 1] == ControllerEvent::Touchpads {
        left: (steam_i16_at(buf, 18), steam_i16_at(buf, 20), steam_i16_at(buf, 22)),
        right: (steam_i16_at(buf, 24), steam_i16_at(buf, 26), steam_i16_at(buf, 28)),
    }
    &&& events[n + 2] == ControllerEvent::MotionSensors {
        timestamp_us: u32_from_le(buf.subrange(30, 34)),
        accel: (steam_i16_at(buf, 34), steam_i16_at(buf, 36), steam_i16_at(buf, 38)),
        gyro: (steam_i16_at(buf, 40), steam_i16_at(buf, 42), steam_i16_at(buf, 44)),
    }
}

/// Handles one read from the Steam Controller: given the buttons of the last
/// input report, returns the buttons to remember and the events to send. A
/// read that is not an input report asks for nothing and leaves the buttons.
pub fn report_events(last: Buttons, buf: &[u8]) -> (r: (Buttons, Vec<ControllerEvent>))
    ensures
        !is_input_report(buf@) ==> r.0 == last && r.1@.len() == 0,
        is_input_report(buf@) ==> r.0@ == u32_from_le(buf@.subrange(2, 6)),
        is_input_report(buf@) ==> report_events_spec(last@, buf@, r.1@),
        is_input_report(buf@) ==> apply_button_events(last@, r.1@) == r.0@,
        is_input_report(buf@) ==> r.1@.len() >= 3,
        is_input_report(buf@) ==> r.1@[r.1@.len() - 3] == (ControllerEvent::Joysticks {
            left: (steam_i16_at(buf@, 10), steam_i16_at(buf@, 12)),
            right: (steam_i16_at(buf@, 14), steam_i16_at(buf@, 16)),
        }),
        is_input_report(buf@) ==> r.1@[r.1@.len() - 2] == (ControllerEvent::Touchpads {
            left: (steam_i16_at(buf@, 18), steam_i16_at(buf@, 20), steam_i16_at(buf@, 22)),
            right: (steam_i16_at(buf@, 24), steam_i16_at(buf@, 26), steam_i16_at(buf@, 28)),
        }),
        is_input_report(buf@) ==> r.1@[r.1@.len() - 1] == (ControllerEvent::MotionSensors {
            timestamp_us: u32_from_le(buf@.subrange(30, 34)),
            accel: (steam_i16_at(buf@, 34), steam_i16_at(buf@, 36), steam_i16_at(buf@, 38)),
            gyro: (steam_i16_at(buf@, 40), steam_i16_at(buf@, 42), steam_i16_at(buf@, 44)),
        }),
{
    let mut events: Vec<ControllerEvent> = Vec::new();
    let rep = match parse_input_report(buf) {
        Some(rep) => rep,
        None => {
            return (last, events);
        },
    };
    let (released, pressed) = button_changes(last, rep.buttons);
    let released_list = released.iter();
    let pressed_list = pressed.iter();
    let ghost rel = contained_buttons(released@);
    let ghost pr = contained_buttons(pressed@);
    let mut i: usize = 0;
    while i < released_list.len()
        invariant
            0 <= i <= released_list.len(),
            released_list.len() == rel.len(),
            forall|k: int| 0 <= k < released_list.len() ==> (#[trigger] released_list@[k])@ == rel[k],
            events@.len() == i,
            forall|k: int| 0 <= k < i ==> is_button_event(#[trigger] events@[k], rel[k], false),
        decreases released_list.len() - i,
    {
        events.push(ControllerEvent::Button { button: released_list[i], pressed: false });
        i = i + 1;
    }
    let mut j: usize = 0;
    while j < pressed_list.len()
        invariant
            0 <= j <= pressed_list.len(),
            pressed_list.len() == pr.len(),
            forall|k: int| 0 <= k < pressed_list.len() ==> (#[trigger] pressed_list@[k])@ == pr[k],
            events@.len() == rel.len() + j,
            forall|k: int| 0 <= k < rel.len() ==> is_button_event(#[trigger] events@[k], rel[k], false),
            forall|k: int| 0 <= k < j ==> is_button_event(#[trigger] events@[rel.len() + k], pr[k], true),
        decreases pressed_list.len() - j,
    {
        events.push(ControllerEvent::Button { button: pressed_list[j], pressed: true });
        j = j + 1;
    }
    events.push(ControllerEvent::Joysticks { left: rep.left_stick, right: rep.right_stick });
    events.push(ControllerEvent::Touchpads { left: rep.left_pad, right: rep.right_pad });
    events.push(
        ControllerEvent::MotionSensors {
            timestamp_us: rep.sensor_timestamp_us,
            accel: rep.accel,
            gyro: rep.gyro,
        },
    );
    proof {
        lemma_report_events_replay(last@, buf@, events@);
    }
    (rep.buttons, events)
}


/// Whether the USB ids are those of a Steam Controller.
pub open spec fn is_steam_controller_id(vendor_id: u16, product_id: u16) -> bool {
    vendor_id == STEAM_CONTROLLER_VENDOR_ID && product_id == STEAM_CONTROLLER_PRODUCT_ID
}

/// Whether no device before the `i`-th has the same path.
pub open spec fn is_first_with_path(paths: Seq<Vec<u8>>, i: int) -> bool {
    forall|j: int| 0 <= j < i ==> (#[trigger] paths[j])@ != paths[i]@
}

/// The indices, in order, of the Steam Controllers among the devices with
/// the given paths and USB ids, each path counted once (at its first device).
pub open spec fn steam_controller_selection(paths: Seq<Vec<u8>>, ids: Seq<(u16, u16)>) -> Seq<int> {
    Seq::new(paths.len(), |i: int| i).filter(
        |i: int| is_first_with_path(paths, i) && is_steam_controller_id(ids[i].0, ids[i].1),
    )
}

fn bytes_equal(a: &Vec<u8>, b: &Vec<u8>) -> (r: bool)
    ensures
        r == (a@ == b@),
{
    if a.len() != b.len() {
        return false;
    }
    let mut i: usize = 0;
    while i < a.len()
        invariant
            a@.len() == b@.len(),
            0 <= i <= a@.len(),
            forall|k: int| 0 <= k < i ==> a@[k] == b@[k],
        decreases a.len() - i,
    {
        if a[i] != b[i] {
            return false;
        }
        i = i + 1;
    }
    assert(a@ =~= b@);
    true
}

/// Picks the Steam Controllers out of a device list, each device path once.
/// `paths[i]` and `ids[i]` are the path and the (vendor, product) ids of the
/// `i`-th device.
pub fn steam_controller_indices(paths: &Vec<Vec<u8>>, ids: &Vec<(u16, u16)>) -> (r: Vec<usize>)
    requires
        paths.len() == ids.len(),
    ensures
        r.len() == steam_controller_selection(paths@, ids@).len(),
        forall|k: int|
            0 <= k < r.len() ==> (#[trigger] r@[k]) as int == steam_controller_selection(paths@, ids@)[k],
{
    let ghost pred = |i: int| is_first_with_path(paths@, i) && is_steam_controller_id(ids@[i].0, ids@[i].1);
    let ghost all = Seq::new(paths@.len(), |i: int| i);
    let mut r: Vec<usize> = Vec::new();
    let mut i: usize = 0;
    while i < paths.len()
        invariant
            paths.len() == ids.len(),
            0 <= i <= paths.len(),
            all == Seq::new(paths@.len(), |i: int| i),
            pred == (|i: int| is_first_with_path(paths@, i) && is_steam_controller_id(ids@[i].0, ids@[i].1)),
            r.len() == all.take(i as int).filter(pred).len(),
            forall|k: int| 0 <= k < r.len() ==> (#[trigger] r@[k]) as int == all.take(i as int).filter(pred)[k],
        decreases paths.len() - i,
    {
        let mut first = true;
        let mut j: usize = 0;
        while j < i
            invariant
                0 <= j <= i < paths.len(),
                first == (forall|k: int| 0 <= k < j ==> (#[trigger] paths@[k])@ != paths@[i as int]@),
            decreases i - j,
        {
            if bytes_equal(&paths[j], &paths[i]) {
                first = false;
            }
            j = j + 1;
        }
        let (vendor_id, product_id) = ids[i];
        proof {
            assert(all.take(i + 1) == all.take(i as int).push(i as int));
            all.take(i as int).lemma_filter_push(i as int, pred);
        }
        if first && vendor_id == STEAM_CONTROLLER_VENDOR_ID && product_id == STEAM_CONTROLLER_PRODUCT_ID {
            r.push(i);
        }
        i = i + 1;
    }
    assert(all.take(paths@.len() as int) == all);
    r
}


proof fn lemma_filter_increasing(s: Seq<int>, p: spec_fn(int) -> bool)
    requires
        forall|i: int, j: int| 0 <= i < j < s.len() ==> s[i] < s[j],
    ensures
        forall|i: int, j: int| 0 <= i < j < s.filter(p).len() ==> s.filter(p)[i] < s.filter(p)[j],
        forall|k: int| 0 <= k < s.filter(p).len() ==> s.contains(#[trigger] s.filter(p)[k]),
    decreases s.len(),
{
    reveal(Seq::filter);
    if s.len() > 0 {
        let d = s.drop_last();
        lemma_filter_increasing(d, p);
        assert forall|k: int| 0 <= k < d.filter(p).len() implies #[trigger] d.filter(p)[k] < s.last() by {
            let e = d.filter(p)[k];
            assert(d.contains(e));
            let i = choose|i: int| 0 <= i < d.len() && d[i] == e;
            assert(s[i] == e);
        }
        assert forall|k: int| 0 <= k < s.filter(p).len() implies s.contains(#[trigger] s.filter(p)[k]) by {
            if k < d.filter(p).len() {
                let e = d.filter(p)[k];
                assert(d.contains(e));
                let i = choose|i: int| 0 <= i < d.len() && d[i] == e;
                assert(s[i] == e);
            } else {
                assert(s[s.len() - 1] == s.filter(p)[k]);
            }
        }
    }
}

/// Every device picked is a Steam Controller, and no two devices picked have
/// the same path, so no controller is opened twice.
pub proof fn lemma_steam_controller_selection(paths: Seq<Vec<u8>>, ids: Seq<(u16, u16)>)
    requires
        paths.len() == ids.len(),
    ensures
        ({
            let sel = steam_controller_selection(paths, ids);
            &&& forall|k: int| 0 <= k < sel.len() ==> 0 <= #[trigger] sel[k] < paths.len()
            &&& forall|k: int|
                0 <= k < sel.len() ==> is_steam_controller_id(ids[#[trigger] sel[k]].0, ids[sel[k]].1)
            &&& forall|k1: int, k2: int|
                0 <= k1 < k2 < sel.len() ==> sel[k1] < sel[k2] && (#[trigger] paths[sel[k1]])@
                    != (#[trigger] paths[sel[k2]])@
            &&& forall|i: int|
                0 <= i < paths.len() && #[trigger] is_first_with_path(paths, i)
                    && is_steam_controller_id(ids[i].0, ids[i].1) ==> sel.contains(i)
        }),
{
    let all = Seq::new(paths.len(), |i: int| i);
    let pred = |i: int| is_first_with_path(paths, i) && is_steam_controller_id(ids[i].0, ids[i].1);
    let sel = all.filter(pred);
    lemma_filter_increasing(all, pred);
    assert forall|k: int| 0 <= k < sel.len() implies 0 <= #[trigger] sel[k] < paths.len() && pred(sel[k]) by {
        all.lemma_filter_pred(pred, k);
        assert(all.contains(sel[k]));
    }
    assert forall|k1: int, k2: int| 0 <= k1 < k2 < sel.len() implies sel[k1] < sel[k2] && (
    #[trigger] paths[sel[k1]])@ != (#[trigger] paths[sel[k2]])@ by {
        assert(pred(sel[k2]));
        assert(0 <= sel[k1]);
    }
    assert forall|i: int|
        0 <= i < paths.len() && #[trigger] is_first_with_path(paths, i)
            && is_steam_controller_id(ids[i].0, ids[i].1) implies sel.contains(i) by {
        assert(all[i] == i);
        all.lemma_filter_contains(pred, i);
    }
}


/// The buttons held after the button events of `events`, in order, starting
/// from `bits`; other events leave the buttons alone.
pub open spec fn apply_button_events(bits: u32, events: Seq<ControllerEvent>) -> u32
    decreases events.len(),
{
    if events.len() == 0 {
        bits
    } else {
        let b = apply_button_events(bits, events.drop_last());
        match events.last() {
            ControllerEvent::Button { button, pressed } => if pressed {
                b | button@
            } else {
                b & !button@
            },
            _ => b,
        }
    }
}

proof fn lemma_apply_concat(bits: u32, e1: Seq<ControllerEvent>, e2: Seq<ControllerEvent>)
    ensures
        apply_button_events(bits, e1 + e2) == apply_button_events(apply_button_events(bits, e1), e2),
    decreases e2.len(),
{
    if e2.len() == 0 {
        assert(e1 + e2 =~= e1);
    } else {
        assert((e1 + e2).drop_last() =~= e1 + e2.drop_last());
        lemma_apply_concat(bits, e1, e2.drop_last());
    }
}

proof fn lemma_apply_button_run(bits: u32, events: Seq<ControllerEvent>, s: Seq<u32>, pressed: bool)
    requires
        events.len() == s.len(),
        forall|k: int| 0 <= k < s.len() ==> is_button_event(#[trigger] events[k], s[k], pressed),
    ensures
        apply_button_events(bits, events) == if pressed {
            bits | union_of(s)
        } else {
            bits & !union_of(s)
        },
    decreases s.len(),
{
    if s.len() == 0 {
        assert(bits | 0 == bits && bits & !0u32 == bits) by (bit_vector);
    } else {
        let d = events.drop_last();
        let t = s.drop_last();
        assert forall|k: int| 0 <= k < t.len() implies is_button_event(#[trigger] d[k], t[k], pressed) by {
            assert(is_button_event(events[k], s[k], pressed));
        }
        lemma_apply_button_run(bits, d, t, pressed);
        assert(is_button_event(events[s.len() - 1], s[s.len() - 1], pressed));
        let u = union_of(t);
        let f = s.last();
        assert((bits | u) | f == bits | (u | f) && (bits & !u) & !f == bits & !(u | f)) by (bit_vector);
    }
}

/// Replaying the button events that an input report asks for on the buttons
/// of the last report gives the buttons of this report: every change is sent,
/// and nothing else.
pub proof fn lemma_report_events_replay(last: u32, buf: Seq<u8>, events: Seq<ControllerEvent>)
    requires
        is_input_report(buf),
        report_events_spec(last, buf, events),
    ensures
        apply_button_events(last, events) == u32_from_le(buf.subrange(2, 6)),
{
    let now = u32_from_le(buf.subrange(2, 6));
    let released = contained_buttons(last & !now);
    let pressed = contained_buttons(now & !last);
    let r = released.len() as int;
    let n = (released.len() + pressed.len()) as int;
    let e1 = events.subrange(0, r);
    let e2 = events.subrange(r, n);
    let e3 = events.subrange(n, n + 3);
    assert(events =~= e1 + e2 + e3);
    assert forall|k: int| 0 <= k < released.len() implies is_button_event(#[trigger] e1[k], released[k], false) by {
        assert(is_button_event(events[k], released[k], false));
    }
    assert forall|k: int| 0 <= k < pressed.len() implies is_button_event(#[trigger] e2[k], pressed[k], true) by {
        assert(is_button_event(events[r + k], pressed[k], true));
    }
    lemma_apply_button_run(last, e1, released, false);
    lemma_contained_buttons_union(last & !now);
    let b1 = last & !(last & !now);
    lemma_apply_button_run(b1, e2, pressed, true);
    lemma_contained_buttons_union(now & !last);
    let b2 = b1 | (now & !last);
    lemma_apply_concat(last, e1, e2);
    lemma_apply_concat(last, e1 + e2, e3);
    let e3a = e3.drop_last();
    let e3b = e3a.drop_last();
    assert(e3b.drop_last() =~= Seq::<ControllerEvent>::empty());
    assert(e3b.last() is Joysticks && e3a.last() is Touchpads && e3.last() is MotionSensors);
    assert(apply_button_events(b2, e3b) == b2) by {
        reveal_with_fuel(apply_button_events, 2);
    }
    assert(apply_button_events(b2, e3a) == b2);
    assert(apply_button_events(b2, e3) == b2);
    lemma_button_changes(last, now);
}

} // verus!
