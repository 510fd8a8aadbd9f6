use vstd::prelude::*;
use vstd::std_specs::convert::FromSpecImpl;
use crate::buttons::Buttons;
use crate::little_endian::{
    i16_from_le, i16_le_bytes, i16_to_le_bytes, lemma_i16_le_roundtrip, lemma_u32_le_roundtrip,
    u32_from_le, u32_le_bytes, u32_to_le_bytes,
};

verus! {

/// The buttons of a DualSense input report, in the bit positions of the
/// report's button bytes (big end first). The four D-pad bits are held here
/// and turned into a hat-switch value when the report is built.
#[derive(Clone, Copy, Debug, PartialEq, Eq, Structural)]
pub struct DualsenseButtons {
    bits: u32,
}

impl View for DualsenseButtons {
    type V = u32;

    closed spec fn view(&self) -> u32 {
        self.bits
    }
}

/// The bits that name a DualSense button.
pub const DUALSENSE_BUTTONS_ALL: u32 = 0xffff_0700;

/// The hat-switch value of the D-pad: 0 for up, counting clockwise in steps of
/// 45 degrees to 7 for up-left, and 8 when no direction is held.
pub open spec fn hat_switch(up: bool, down: bool, left: bool, right: bool) -> u8 {
    if up && !left {
        if right { 1 } else { 0 }
    } else if right {
        if down { 3 } else { 2 }
    } else if down {
        if left { 5 } else { 4 }
    } else if left {
        if up { 7 } else { 6 }
    } else {
        8
    }
}

/// The four button bytes of a DualSense report for the button bits `v`: the
/// face buttons in the high nibble of the first byte with the hat switch in its
/// low nibble, then the remaining three bytes of `v`, big end first.
pub open spec fn button_bytes(v: u32) -> Seq<u8> {
    let hat = hat_switch(
        v & DualsenseButtons::DPAD_UP != 0,
        v & DualsenseButtons::DPAD_DOWN != 0,
        v & DualsenseButtons::DPAD_LEFT != 0,
        v & DualsenseButtons::DPAD_RIGHT != 0,
    );
    seq![((v >> 24) as u8 & 0xf0) | hat, (v >> 16) as u8, (v >> 8) as u8, v as u8]
}

/// The DualSense buttons that the Steam Controller buttons `b` are shown as.
/// Buttons without a DualSense counterpart (back grips, rear buttons,
/// touches) are dropped; both pad clicks press the touchpad.
pub open spec fn dualsense_bits_from_steam(b: u32) -> u32 {
    (if b & Buttons::BTN_A != 0 { DualsenseButtons::CROSS } else { 0 })
    | (if b & Buttons::BTN_B != 0 { DualsenseButtons::CIRCLE } else { 0 })
    | (if b & Buttons::BTN_X != 0 { DualsenseButtons::SQUARE } else { 0 })
    | (if b & Buttons::BTN_Y != 0 { DualsenseButtons::TRIANGLE } else { 0 })
    | (if b & Buttons::BTN_R1 != 0 { DualsenseButtons::R1 } else { 0 })
    | (if b & Buttons::BTN_L1 != 0 { DualsenseButtons::L1 } else { 0 })
    | (if b & Buttons::BTN_R2 != 0 { DualsenseButtons::R2 } else { 0 })
    | (if b & Buttons::BTN_L2 != 0 { DualsenseButtons::L2 } else { 0 })
    | (if b & Buttons::BTN_RIGHT_PAD_CLICK != 0 { DualsenseButtons::TOUCHPAD } else { 0 })
    | (if b & Buttons::BTN_LEFT_PAD_CLICK != 0 { DualsenseButtons::TOUCHPAD } else { 0 })
    | (if b & Buttons::BTN_THUMBR != 0 { DualsenseButtons::R3 } else { 0 })
    | (if b & Buttons::BTN_THUMBL != 0 { DualsenseButtons::L3 } else { 0 })
    | (if b & Buttons::BTN_DPAD_UP != 0 { DualsenseButtons::DPAD_UP } else { 0 })
    | (if b & Buttons::BTN_DPAD_DOWN != 0 { DualsenseButtons::DPAD_DOWN } else { 0 })
    | (if b & Buttons::BTN_DPAD_LEFT != 0 { DualsenseButtons::DPAD_LEFT } else { 0 })
    | (if b & Buttons::BTN_DPAD_RIGHT != 0 { DualsenseButtons::DPAD_RIGHT } else { 0 })
    | (if b & Buttons::BTN_START != 0 { DualsenseButtons::CREATE } else { 0 })
    | (if b & Buttons::BTN_SELECT != 0 { DualsenseButtons::OPTIONS } else { 0 })
    | (if b & Buttons::BTN_STEAM != 0 { DualsenseButtons::PS } else { 0 })
    | (if b & Buttons::BTN_QUICK_ACCESS != 0 { DualsenseButtons::MUTE } else { 0 })
}

impl DualsenseButtons {
    pub const DPAD_UP: u32 = 0x0100_0000;
    pub const DPAD_DOWN: u32 = 0x0200_0000;
    pub const DPAD_LEFT: u32 = 0x0400_0000;
    pub const DPAD_RIGHT: u32 = 0x0800_0000;
    pub const SQUARE: u32 = 0x1000_0000;
    pub const CROSS: u32 = 0x2000_0000;
    pub const CIRCLE: u32 = 0x4000_0000;
    pub const TRIANGLE: u32 = 0x8000_0000;
    pub const L1: u32 = 0x0001_0000;
    pub const R1: u32 = 0x0002_0000;
    pub const L2: u32 = 0x0004_0000;
    pub const R2: u32 = 0x0008_0000;
    pub const CREATE: u32 = 0x0010_0000;
    pub const OPTIONS: u32 = 0x0020_0000;
    pub const L3: u32 = 0x0040_0000;
    pub const R3: u32 = 0x0080_0000;
    pub const PS: u32 = 0x0000_0100;
    pub const TOUCHPAD: u32 = 0x0000_0200;
    pub const MUTE: u32 = 0x0000_0400;

    /// The set with no button.
    pub fn empty() -> (r: DualsenseButtons)
        ensures
            r@ == 0,
    {
        DualsenseButtons { bits: 0 }
    }

    /// The set of the named buttons among `bits`; other bits are dropped.
    pub fn from_bits_truncate(bits: u32) -> (r: DualsenseButtons)
        ensures
            r@ == bits & DUALSENSE_BUTTONS_ALL,
    {
        DualsenseButtons { bits: bits & DUALSENSE_BUTTONS_ALL }
    }

    /// The set with exactly the given bits.
    pub fn from_bits_retain(bits: u32) -> (r: DualsenseButtons)
        ensures
            r@ == bits,
    {
        DualsenseButtons { bits }
    }

    pub fn bits(&self) -> (r: u32)
        ensures
            r == self@,
    {
        self.bits
    }

    /// Whether every button of `other` is in `self`.
    pub fn contains(&self, other: DualsenseButtons) -> (r: bool)
        ensures
            r == (self@ & other@ == other@),
    {
        self.bits & other.bits == other.bits
    }

    /// Adds the buttons of `other`.
    pub fn insert(&mut self, other: DualsenseButtons)
        ensures
            final(self)@ == old(self)@ | other@,
    {
        self.bits = self.bits | other.bits;
    }

    /// Takes away the buttons of `other`.
    pub fn remove(&mut self, other: DualsenseButtons)
        ensures
            final(self)@ == old(self)@ & !other@,
    {
        self.bits = self.bits & !other.bits;
    }

    /// The four button bytes of a DualSense input report.
    pub fn as_button_bytes(&self) -> (r: [u8; 4])
        ensures
            r@ == button_bytes(self@),
            r[0] >> 4u8 == (self@ >> 28u32) as u8,
            r[0] & 0x0f == hat_switch(
                self@ & DualsenseButtons::DPAD_UP != 0,
                self@ & DualsenseButtons::DPAD_DOWN != 0,
                self@ & DualsenseButtons::DPAD_LEFT != 0,
                self@ & DualsenseButtons::DPAD_RIGHT != 0,
            ),
            r[1] == (self@ >> 16u32) as u8,
            r[2] == (self@ >> 8u32) as u8,
            r[3] == self@ as u8,
            ((r[1] as u32) << 16u32) | ((r[2] as u32) << 8u32) | (r[3] as u32) == self@ & 0x00ff_ffff,
    {
        let value = self.bits;
        let face_buttons_value: u8 = (value >> 24) as u8 & 0xf0;
        let up = value & Self::DPAD_UP != 0;
        let down = value & Self::DPAD_DOWN != 0;
        let left = value & Self::DPAD_LEFT != 0;
        let right = value & Self::DPAD_RIGHT != 0;
        let mut dpad: u8 = 0x08;
        if up && !left {
            dpad = 0x00;
            if right {
                dpad += 0x01;
            }
        } else if right {
            dpad = 0x02;
            if down {
                dpad += 0x01;
            }
        } else if down {
            dpad = 0x04;
            if left {
                dpad += 0x01;
            }
        } else if left {
            dpad = 0x06;
            if up {
                dpad += 0x01;
            }
        }
        let r = [face_buttons_value | dpad, (value >> 16) as u8, (value >> 8) as u8, value as u8];
        assert(r@ =~= button_bytes(value));
        proof {
            lemma_button_bytes_first_byte(value);
            lemma_button_bytes_low_bytes(value);
        }
        r
    }
}

/// Which Steam Controller pad a DualSense touch point follows.
#[derive(Clone, Copy, Debug, PartialEq, Eq, Structural)]
pub enum MappedPad {
    Unmapped,
    Left,
    Right,
}

/// One finger on the DualSense touchpad.
#[derive(Clone, Copy, Debug, PartialEq, Eq, Structural)]
pub struct TouchPoint {
    /// If false, only `id` has to be meaningful.
    pub active: bool,
    /// The contact id; 7 bits, counting up and wrapping from 127 to 0.
    pub id: u8,
    pub x: u16,
    pub y: u16,
    pub mapped_pad: MappedPad,
}

/// The four bytes of a touch point in a DualSense report: an inactive flag
/// (bit 7) over the id, then 12 bits of x and 12 bits of y, little end first.
pub open spec fn touch_point_bytes(tp: TouchPoint) -> Seq<u8> {
    let x = tp.x & 0x0fff;
    let y = tp.y & 0x0fff;
    seq![
        (if tp.active { 0x00u8 } else { 0x80u8 }) | tp.id,
        (x & 0xff) as u8,
        ((x >> 8) & 0x0f) as u8 | (((y & 0x000f) as u8) << 4u8),
        ((y & 0xfff0) >> 4) as u8,
    ]
}

/// What a receiver reads back from the four bytes of a touch point:
/// whether it is active, its id, x and y.
pub open spec fn decode_touch_point(b: Seq<u8>) -> (bool, u8, u16, u16) {
    (
        b[0] & 0x80 == 0,
        b[0] & 0x7f,
        (b[1] as u16) | (((b[2] & 0x0f) as u16) << 8u16),
        ((b[2] >> 4u8) as u16) | ((b[3] as u16) << 4u16),
    )
}

impl TouchPoint {
    /// An inactive touch point with id 0 at the origin, following no pad.
    pub open spec fn new_spec() -> TouchPoint {
        TouchPoint { active: false, id: 0, x: 0, y: 0, mapped_pad: MappedPad::Unmapped }
    }

    /// An inactive touch point with id 0 at the origin, following no pad.
    pub fn new() -> (r: TouchPoint)
        ensures
            r == TouchPoint::new_spec(),
    {
        TouchPoint { active: false, id: 0, x: 0, y: 0, mapped_pad: MappedPad::Unmapped }
    }

    /// Moves on to the next contact id, wrapping from 127 to 0.
    pub fn next_id(&mut self)
        requires
            old(self).id < 255,
        ensures
            final(self).id == (old(self).id + 1) % 128,
            final(self).active == old(self).active,
            final(self).x == old(self).x,
            final(self).y == old(self).y,
            final(self).mapped_pad == old(self).mapped_pad,
    {
        self.id = (self.id + 1) % 128;
    }

    /// The four bytes of this touch point in a DualSense report.
    pub fn as_bytes(&self) -> (r: [u8; 4])
        ensures
            r@ == touch_point_bytes(*self),
            self.id < 128 ==> decode_touch_point(r@) == (self.active, self.id, self.x & 0x0fff, self.y & 0x0fff),
    {
        let active_bit: u8 = if self.active { 0x00 } else { 0x80 };
        let x = self.x & 0x0fff;
        let x_high = ((x >> 8) & 0x0f) as u8;
        let x_low = (x & 0xff) as u8;
        let y = self.y & 0x0fff;
        let y_low = (y & 0x000f) as u8;
        let y_high = ((y & 0xfff0) >> 4) as u8;
        let r = [active_bit | self.id, x_low, x_high | (y_low << 4), y_high];
        assert(r@ =~= touch_point_bytes(*self));
        proof {
            if self.id < 128 {
                lemma_touch_point_bytes_roundtrip(*self);
            }
        }
        r
    }
}

/// A receiver reads back from the bytes of a touch point whose id fits in
/// 7 bits its activity, its id, and the low 12 bits of x and of y.
pub proof fn lemma_touch_point_bytes_roundtrip(tp: TouchPoint)
    requires
        tp.id < 128,
    ensures
        decode_touch_point(touch_point_bytes(tp)) == (tp.active, tp.id, tp.x & 0x0fff, tp.y & 0x0fff),
{
    let id = tp.id;
    let x = tp.x;
    let y = tp.y;
    let a: u8 = if tp.active { 0x00u8 } else { 0x80u8 };
    assert(((a | id) & 0x80 == 0) == (a == 0) && (a | id) & 0x7f == id) by (bit_vector)
        requires
            id < 128,
            a == 0 || a == 0x80;
    assert({
        let xm = x & 0x0fff;
        let ym = y & 0x0fff;
        let b1 = (xm & 0xff) as u8;
        let b2 = ((xm >> 8) & 0x0f) as u8 | (((ym & 0x000f) as u8) << 4u8);
        let b3 = ((ym & 0xfff0) >> 4) as u8;
        &&& (b1 as u16) | (((b2 & 0x0f) as u16) << 8u16) == xm
        &&& ((b2 >> 4u8) as u16) | ((b3 as u16) << 4u16) == ym
    }) by (bit_vector);
}

/// Each DualSense button is held exactly when its Steam Controller
/// counterpart is: cross for A, circle for B, square for X, triangle for Y,
/// the shoulders, triggers and stick clicks for theirs, the touchpad for
/// either pad click, the D-pad directions for the same directions, create for
/// start, options for select, PS for the Steam button and mute for quick
/// access; and no other bit is set.
pub proof fn lemma_dualsense_button_table(b: u32)
    ensures
        (dualsense_bits_from_steam(b) & DualsenseButtons::CROSS != 0) == (b & Buttons::BTN_A != 0),
        (dualsense_bits_from_steam(b) & DualsenseButtons::CIRCLE != 0) == (b & Buttons::BTN_B != 0),
        (dualsense_bits_from_steam(b) & DualsenseButtons::SQUARE != 0) == (b & Buttons::BTN_X != 0),
        (dualsense_bits_from_steam(b) & DualsenseButtons::TRIANGLE != 0) == (b & Buttons::BTN_Y != 0),
        (dualsense_bits_from_steam(b) & DualsenseButtons::R1 != 0) == (b & Buttons::BTN_R1 != 0),
        (dualsense_bits_from_steam(b) & DualsenseButtons::L1 != 0) == (b & Buttons::BTN_L1 != 0),
        (dualsense_bits_from_steam(b) & DualsenseButtons::R2 != 0) == (b & Buttons::BTN_R2 != 0),
        (dualsense_bits_from_steam(b) & DualsenseButtons::L2 != 0) == (b & Buttons::BTN_L2 != 0),
        (dualsense_bits_from_steam(b) & DualsenseButtons::TOUCHPAD != 0) == (b & Buttons::BTN_RIGHT_PAD_CLICK != 0 || b & Buttons::BTN_LEFT_PAD_CLICK != 0),
        (dualsense_bits_from_steam(b) & DualsenseButtons::R3 != 0) == (b & Buttons::BTN_THUMBR != 0),
        (dualsense_bits_from_steam(b) & DualsenseButtons::L3 != 0) == (b & Buttons::BTN_THUMBL != 0),
        (dualsense_bits_from_steam(b) & DualsenseButtons::DPAD_UP != 0) == (b & Buttons::BTN_DPAD_UP != 0),
        (dualsense_bits_from_steam(b) & DualsenseButtons::DPAD_DOWN != 0) == (b & Buttons::BTN_DPAD_DOWN != 0),
        (dualsense_bits_from_steam(b) & DualsenseButtons::DPAD_LEFT != 0) == (b & Buttons::BTN_DPAD_LEFT != 0),
        (dualsense_bits_from_steam(b) & DualsenseButtons::DPAD_RIGHT != 0) == (b & Buttons::BTN_DPAD_RIGHT != 0),
        (dualsense_bits_from_steam(b) & DualsenseButtons::CREATE != 0) == (b & Buttons::BTN_START != 0),
        (dualsense_bits_from_steam(b) & DualsenseButtons::OPTIONS != 0) == (b & Buttons::BTN_SELECT != 0),
        (dualsense_bits_from_steam(b) & DualsenseButtons::PS != 0) == (b & Buttons::BTN_STEAM != 0),
        (dualsense_bits_from_steam(b) & DualsenseButtons::MUTE != 0) == (b & Buttons::BTN_QUICK_ACCESS != 0),
        dualsense_bits_from_steam(b) & !DUALSENSE_BUTTONS_ALL == 0,
{
    let d = dualsense_bits_from_steam(b);
    assert({
        &&& (d & DualsenseButtons::CROSS != 0) == (b & Buttons::BTN_A != 0)
        &&& (d & DualsenseButtons::CIRCLE != 0) == (b & Buttons::BTN_B != 0)
        &&& (d & DualsenseButtons::SQUARE != 0) == (b & Buttons::BTN_X != 0)
        &&& (d & DualsenseButtons::TRIANGLE != 0) == (b & Buttons::BTN_Y != 0)
        &&& (d & DualsenseButtons::R1 != 0) == (b & Buttons::BTN_R1 != 0)
        &&& (d & DualsenseButtons::L1 != 0) == (b & Buttons::BTN_L1 != 0)
        &&& (d & DualsenseButtons::R2 != 0) == (b & Buttons::BTN_R2 != 0)
        &&& (d & DualsenseButtons::L2 != 0) == (b & Buttons::BTN_L2 != 0)
        &&& (d & DualsenseButtons::TOUCHPAD != 0) == (b & Buttons::BTN_RIGHT_PAD_CLICK != 0 || b & Buttons::BTN_LEFT_PAD_CLICK != 0)
        &&& (d & DualsenseButtons::R3 != 0) == (b & Buttons::BTN_THUMBR != 0)
        &&& (d & DualsenseButtons::L3 != 0) == (b & Buttons::BTN_THUMBL != 0)
        &&& (d & DualsenseButtons::DPAD_UP != 0) == (b & Buttons::BTN_DPAD_UP != 0)
        &&& (d & DualsenseButtons::DPAD_DOWN != 0) == (b & Buttons::BTN_DPAD_DOWN != 0)
        &&& (d & DualsenseButtons::DPAD_LEFT != 0) == (b & Buttons::BTN_DPAD_LEFT != 0)
        &&& (d & DualsenseButtons::DPAD_RIGHT != 0) == (b & Buttons::BTN_DPAD_RIGHT != 0)
        &&& (d & DualsenseButtons::CREATE != 0) == (b & Buttons::BTN_START != 0)
        &&& (d & DualsenseButtons::OPTIONS != 0) == (b & Buttons::BTN_SELECT != 0)
        &&& (d & DualsenseButtons::PS != 0) == (b & Buttons::BTN_STEAM != 0)
        &&& (d & DualsenseButtons::MUTE != 0) == (b & Buttons::BTN_QUICK_ACCESS != 0)
        &&& d & !DUALSENSE_BUTTONS_ALL == 0
    }) by (bit_vector)
        requires
            d == dualsense_bits_from_steam(b);
}

/// The DualSense button bits for the Steam Controller button bits `b`.
fn steam_to_dualsense_bits(b: u32) -> (d: u32)
    ensures
        d == dualsense_bits_from_steam(b),
{
    (if b & Buttons::BTN_A != 0 { DualsenseButtons::CROSS } else { 0 })
        | (if b & Buttons::BTN_B != 0 { DualsenseButtons::CIRCLE } else { 0 })
        | (if b & Buttons::BTN_X != 0 { DualsenseButtons::SQUARE } else { 0 })
        | (if b & Buttons::BTN_Y != 0 { DualsenseButtons::TRIANGLE } else { 0 })
        | (if b & Buttons::BTN_R1 != 0 { DualsenseButtons::R1 } else { 0 })
        | (if b & Buttons::BTN_L1 != 0 { DualsenseButtons::L1 } else { 0 })
        | (if b & Buttons::BTN_R2 != 0 { DualsenseButtons::R2 } else { 0 })
        | (if b & Buttons::BTN_L2 != 0 { DualsenseButtons::L2 } else { 0 })
        | (if b & Buttons::BTN_RIGHT_PAD_CLICK != 0 { DualsenseButtons::TOUCHPAD } else { 0 })
        | (if b & Buttons::BTN_LEFT_PAD_CLICK != 0 { DualsenseButtons::TOUCHPAD } else { 0 })
        | (if b & Buttons::BTN_THUMBR != 0 { DualsenseButtons::R3 } else { 0 })
        | (if b & Buttons::BTN_THUMBL != 0 { DualsenseButtons::L3 } else { 0 })
        | (if b & Buttons::BTN_DPAD_UP != 0 { DualsenseButtons::DPAD_UP } else { 0 })
        | (if b & Buttons::BTN_DPAD_DOWN != 0 { DualsenseButtons::DPAD_DOWN } else { 0 })
        | (if b & Buttons::BTN_DPAD_LEFT != 0 { DualsenseButtons::DPAD_LEFT } else { 0 })
        | (if b & Buttons::BTN_DPAD_RIGHT != 0 { DualsenseButtons::DPAD_RIGHT } else { 0 })
        | (if b & Buttons::BTN_START != 0 { DualsenseButtons::CREATE } else { 0 })
        | (if b & Buttons::BTN_SELECT != 0 { DualsenseButtons::OPTIONS } else { 0 })
        | (if b & Buttons::BTN_STEAM != 0 { DualsenseButtons::PS } else { 0 })
        | (if b & Buttons::BTN_QUICK_ACCESS != 0 { DualsenseButtons::MUTE } else { 0 })
}

impl From<Buttons> for DualsenseButtons {
    fn from(value: Buttons) -> (r: Self)
        ensures
            r@ == dualsense_bits_from_steam(value@),
            (r@ & DualsenseButtons::CROSS != 0) == (value@ & Buttons::BTN_A != 0),
            (r@ & DualsenseButtons::CIRCLE != 0) == (value@ & Buttons::BTN_B != 0),
            (r@ & DualsenseButtons::SQUARE != 0) == (value@ & Buttons::BTN_X != 0),
            (r@ & DualsenseButtons::TRIANGLE != 0) == (value@ & Buttons::BTN_Y != 0),
            (r@ & DualsenseButtons::R1 != 0) == (value@ & Buttons::BTN_R1 != 0),
            (r@ & DualsenseButtons::L1 != 0) == (value@ & Buttons::BTN_L1 != 0),
            (r@ & DualsenseButtons::R2 != 0) == (value@ & Buttons::BTN_R2 != 0),
            (r@ & DualsenseButtons::L2 != 0) == (value@ & Buttons::BTN_L2 != 0),
            (r@ & DualsenseButtons::TOUCHPAD != 0) == (value@ & Buttons::BTN_RIGHT_PAD_CLICK != 0 || value@ & Buttons::BTN_LEFT_PAD_CLICK != 0),
            (r@ & DualsenseButtons::R3 != 0) == (value@ & Buttons::BTN_THUMBR != 0),
            (r@ & DualsenseButtons::L3 != 0) == (value@ & Buttons::BTN_THUMBL != 0),
            (r@ & DualsenseButtons::DPAD_UP != 0) == (value@ & Buttons::BTN_DPAD_UP != 0),
            (r@ & DualsenseButtons::DPAD_DOWN != 0) == (value@ & Buttons::BTN_DPAD_DOWN != 0),
            (r@ & DualsenseButtons::DPAD_LEFT != 0) == (value@ & Buttons::BTN_DPAD_LEFT != 0),
            (r@ & DualsenseButtons::DPAD_RIGHT != 0) == (value@ & Buttons::BTN_DPAD_RIGHT != 0),
            (r@ & DualsenseButtons::CREATE != 0) == (value@ & Buttons::BTN_START != 0),
            (r@ & DualsenseButtons::OPTIONS != 0) == (value@ & Buttons::BTN_SELECT != 0),
            (r@ & DualsenseButtons::PS != 0) == (value@ & Buttons::BTN_STEAM != 0),
            (r@ & DualsenseButtons::MUTE != 0) == (value@ & Buttons::BTN_QUICK_ACCESS != 0),
            r@ & !DUALSENSE_BUTTONS_ALL == 0,
    {
        let b = value.bits();
        let d = steam_to_dualsense_bits(b);
        proof {
            lemma_dualsense_button_table(b);
        }
        DualsenseButtons { bits: d }
    }
}

impl FromSpecImpl<Buttons> for DualsenseButtons {
    open spec fn obeys_from_spec() -> bool {
        true
    }

    closed spec fn from_spec(v: Buttons) -> DualsenseButtons {
        DualsenseButtons { bits: dualsense_bits_from_steam(v@) }
    }
}


/// The DualSense controller that the Steam Controller is shown as: the input
/// state that goes into its next input report.
pub struct VirtualDualSenseController {
    /// Counts the input reports sent, wrapping from 255 to 0.
    pub sequence_number: u8,
    pub accel: (i16, i16, i16),
    pub gyro: (i16, i16, i16),
    pub buttons: DualsenseButtons,
    pub left_stick: (u8, u8),
    pub right_stick: (u8, u8),
    pub touch_points: [TouchPoint; 2],
}

/// The index of the touch point that a contact on `mapped_pad` with the given
/// activity goes to: a point already following that pad with that activity;
/// else, for a new contact, the point of that pad's side if it is free; else
/// the first point if only it has that activity; else the second.
pub open spec fn best_touch_point(tps: [TouchPoint; 2], mapped_pad: MappedPad, active: bool) -> int {
    if tps[0].mapped_pad == mapped_pad && tps[0].active == active {
        0
    } else if tps[1].mapped_pad == mapped_pad && tps[1].active == active {
        1
    } else if mapped_pad == MappedPad::Left && !tps[0].active && active {
        0
    } else if mapped_pad == MappedPad::Right && !tps[1].active && active {
        1
    } else if tps[1].active != active && tps[0].active == active {
        0
    } else {
        1
    }
}

/// The pad that a Steam Controller pad number stands for: 0 is the left pad,
/// any other number the right one.
pub open spec fn pad_of(pad: u8) -> MappedPad {
    if pad != 0 { MappedPad::Right } else { MappedPad::Left }
}

/// A touch point after a pad report: lifted (inactive, following no pad) when
/// the raw position and pressure are all zero; otherwise at `(x, y)`, and, if
/// it was not active, active under the next id and following `mapped_pad`.
pub open spec fn touched_point(
    tp: TouchPoint,
    mapped_pad: MappedPad,
    pad_x: i16,
    pad_y: i16,
    pad_pressure: i16,
    x: u16,
    y: u16,
) -> TouchPoint {
    if pad_x == 0 && pad_y == 0 && pad_pressure == 0 {
        TouchPoint { active: false, mapped_pad: MappedPad::Unmapped, ..tp }
    } else if tp.active {
        TouchPoint { x, y, ..tp }
    } else {
        TouchPoint { active: true, id: ((tp.id + 1) % 128) as u8, x, y, mapped_pad }
    }
}

/// The 64-byte DualSense input report (report id 1) for the state `s`, with
/// the motion-sensor timestamp `ts`.
pub open spec fn input_report_bytes(s: VirtualDualSenseController, ts: u32) -> Seq<u8> {
    seq![0x01u8, s.left_stick.0, s.left_stick.1, s.right_stick.0, s.right_stick.1, 0x00, 0x00,
        s.sequence_number]
    + button_bytes(s.buttons@)
    + seq![0xacu8, 0x0a, 0xaf, 0x14]
    + i16_le_bytes(s.gyro.0) + i16_le_bytes(s.gyro.1) + i16_le_bytes(s.gyro.2)
    + i16_le_bytes(s.accel.0) + i16_le_bytes(s.accel.1) + i16_le_bytes(s.accel.2)
    + u32_le_bytes(ts)
    + seq![0x1bu8]
    + touch_point_bytes(s.touch_points[0])
    + touch_point_bytes(s.touch_points[1])
    + seq![0xbdu8, 0x09, 0x09, 0x00, 0x00, 0x00, 0x00, 0x00, 0x92, 0xa0, 0xe8, 0xae, 0x29, 0x0c]
    + seq![0x00u8, 0xb0, 0x7e, 0xc8, 0x76, 0xf8, 0xcc, 0xa2, 0x2b]
}

impl VirtualDualSenseController {
    /// Both touch points carry 7-bit ids.
    pub open spec fn wf(&self) -> bool {
        &&& self.touch_points[0].id < 128
        &&& self.touch_points[1].id < 128
    }

    /// A controller at rest: no button, sticks and sensors at 0, both touch
    /// points lifted with id 0, sequence number 0.
    pub fn new() -> (r: VirtualDualSenseController)
        ensures
            r.wf(),
            r.sequence_number == 0,
            r.accel == (0i16, 0i16, 0i16),
            r.gyro == (0i16, 0i16, 0i16),
            r.buttons@ == 0,
            r.left_stick == (0u8, 0u8),
            r.right_stick == (0u8, 0u8),
            r.touch_points[0] == TouchPoint::new_spec(),
            r.touch_points[1] == TouchPoint::new_spec(),
    {
        VirtualDualSenseController {
            sequence_number: 0,
            accel: (0, 0, 0),
            gyro: (0, 0, 0),
            buttons: DualsenseButtons::empty(),
            left_stick: (0, 0),
            right_stick: (0, 0),
            touch_points: [TouchPoint::new(), TouchPoint::new()],
        }
    }
}

impl VirtualDualSenseController {
    /// Presses (`pressed`) or releases the given buttons; the others keep
    /// their state.
    pub fn update_buttons(&mut self, buttons: DualsenseButtons, pressed: bool)
        ensures
            final(self).buttons@ == if pressed {
                old(self).buttons@ | buttons@
            } else {
                old(self).buttons@ & !buttons@
            },
            final(self).sequence_number == old(self).sequence_number,
            final(self).accel == old(self).accel,
            final(self).gyro == old(self).gyro,
            final(self).left_stick == old(self).left_stick,
            final(self).right_stick == old(self).right_stick,
            final(self).touch_points == old(self).touch_points,
    {
        if pressed {
            self.buttons.insert(buttons);
        } else {
            self.buttons.remove(buttons);
        }
    }

    /// Sets both sticks to report positions (each axis 0 to 255, 128 near
    /// the centre).
    pub fn set_sticks(&mut self, left_stick: (u8, u8), right_stick: (u8, u8))
        ensures
            final(self).left_stick == left_stick,
            final(self).right_stick == right_stick,
            final(self).sequence_number == old(self).sequence_number,
            final(self).accel == old(self).accel,
            final(self).gyro == old(self).gyro,
            final(self).buttons == old(self).buttons,
            final(self).touch_points == old(self).touch_points,
    {
        self.left_stick = left_stick;
        self.right_stick = right_stick;
    }

    /// The index of the touch point that a contact on `mapped_pad` with the
    /// given activity goes to.
    fn get_best_touch_point(&self, mapped_pad: MappedPad, active: bool) -> (r: usize)
        ensures
            r == best_touch_point(self.touch_points, mapped_pad, active),
    {
        let tp0 = self.touch_points[0];
        let tp1 = self.touch_points[1];
        if tp0.mapped_pad == mapped_pad && tp0.active == active {
            return 0;
        }
        if tp1.mapped_pad == mapped_pad && tp1.active == active {
            return 1;
        }
        if mapped_pad == MappedPad::Left {
            if !tp0.active && active {
                return 0;
            }
        } else if mapped_pad == MappedPad::Right {
            if !tp1.active && active {
                return 1;
            }
        }
        if tp1.active != active && tp0.active == active {
            return 0;
        }
        1
    }

    /// Feeds one pad of the Steam Controller to the touchpad. `pad` is 0 for
    /// the left pad and anything else for the right one; `pad_x`, `pad_y` and
    /// `pad_pressure` are the raw pad values, and `(x, y)` the touchpad
    /// position they stand for. The touch point chosen for an active contact on
    /// that pad is lifted when the raw values are all zero, and otherwise moved
    /// to `(x, y)`, taking a new id and the pad if it was not active.
    pub fn update_touchpad(
        &mut self,
        pad_x: i16,
        pad_y: i16,
        pad_pressure: i16,
        pad: u8,
        x: u16,
        y: u16,
    )
        requires
            old(self).wf(),
        ensures
            final(self).wf(),
            ({
                let i = best_touch_point(old(self).touch_points, pad_of(pad), true);
                &&& final(self).touch_points[i] == touched_point(
                    old(self).touch_points[i],
                    pad_of(pad),
                    pad_x,
                    pad_y,
                    pad_pressure,
                    x,
                    y,
                )
                &&& final(self).touch_points[1 - i] == old(self).touch_points[1 - i]
            }),
            final(self).sequence_number == old(self).sequence_number,
            final(self).accel == old(self).accel,
            final(self).gyro == old(self).gyro,
            final(self).buttons == old(self).buttons,
            final(self).left_stick == old(self).left_stick,
            final(self).right_stick == old(self).right_stick,
    {
        let mapped_pad = if pad != 0 { MappedPad::Right } else { MappedPad::Left };
        let i = self.get_best_touch_point(mapped_pad, true);
        let mut touch_point = self.touch_points[i];
        if pad_x == 0 && pad_y == 0 && pad_pressure == 0 {
            touch_point.active = false;
            touch_point.mapped_pad = MappedPad::Unmapped;
        } else {
            if !touch_point.active {
                touch_point.next_id();
                touch_point.active = true;
                touch_point.mapped_pad = mapped_pad;
            }
            touch_point.x = x;
            touch_point.y = y;
        }
        self.touch_points[i] = touch_point;
    }

    /// Sets the accelerometer and gyroscope readings.
    pub fn update_motion_sensors(
        &mut self,
        accel_x: i16,
        accel_y: i16,
        accel_z: i16,
        gyro_x: i16,
        gyro_y: i16,
        gyro_z: i16,
    )
        ensures
            final(self).accel == (accel_x, accel_y, accel_z),
            final(self).gyro == (gyro_x, gyro_y, gyro_z),
            final(self).sequence_number == old(self).sequence_number,
            final(self).buttons == old(self).buttons,
            final(self).left_stick == old(self).left_stick,
            final(self).right_stick == old(self).right_stick,
            final(self).touch_points == old(self).touch_points,
    {
        self.accel = (accel_x, accel_y, accel_z);
        self.gyro = (gyro_x, gyro_y, gyro_z);
    }

    /// The input report for the current state, with the motion-sensor
    /// timestamp `sensors_timestamp`.
    pub fn input_report(&self, sensors_timestamp: u32) -> (r: [u8; 64])
        ensures
            r@ == input_report_bytes(*self, sensors_timestamp),
            r[0] == 0x01,
            r[1] == self.left_stick.0 && r[2] == self.left_stick.1,
            r[3] == self.right_stick.0 && r[4] == self.right_stick.1,
            r[5] == 0 && r[6] == 0,
            r[7] == self.sequence_number,
            r[8] >> 4u8 == (self.buttons@ >> 28u32) as u8,
            r[8] & 0x0f == hat_switch(
                self.buttons@ & DualsenseButtons::DPAD_UP != 0,
                self.buttons@ & DualsenseButtons::DPAD_DOWN != 0,
                self.buttons@ & DualsenseButtons::DPAD_LEFT != 0,
                self.buttons@ & DualsenseButtons::DPAD_RIGHT != 0,
            ),
            ((r[9] as u32) << 16u32) | ((r[10] as u32) << 8u32) | (r[11] as u32) == self.buttons@
                & 0x00ff_ffff,
            i16_from_le(r[16], r[17]) == self.gyro.0,
            i16_from_le(r[18], r[19]) == self.gyro.1,
            i16_from_le(r[20], r[21]) == self.gyro.2,
            i16_from_le(r[22], r[23]) == self.accel.0,
            i16_from_le(r[24], r[25]) == self.accel.1,
            i16_from_le(r[26], r[27]) == self.accel.2,
            u32_from_le(r@.subrange(28, 32)) == sensors_timestamp,
            self.touch_points[0].id < 128 ==> decode_touch_point(r@.subrange(33, 37)) == (
                self.touch_points[0].active,
                self.touch_points[0].id,
                self.touch_points[0].x & 0x0fff,
                self.touch_points[0].y & 0x0fff,
            ),
            self.touch_points[1].id < 128 ==> decode_touch_point(r@.subrange(37, 41)) == (
                self.touch_points[1].active,
                self.touch_points[1].id,
                self.touch_points[1].x & 0x0fff,
                self.touch_points[1].y & 0x0fff,
            ),
    {
        let b = self.buttons.as_button_bytes();
        let gx = i16_to_le_bytes(self.gyro.0);
        let gy = i16_to_le_bytes(self.gyro.1);
        let gz = i16_to_le_bytes(self.gyro.2);
        let ax = i16_to_le_bytes(self.accel.0);
        let ay = i16_to_le_bytes(self.accel.1);
        let az = i16_to_le_bytes(self.accel.2);
        let t0 = self.touch_points[0].as_bytes();
        let t1 = self.touch_points[1].as_bytes();
        let ts = u32_to_le_bytes(sensors_timestamp);
        let r = [
            0x01,
            self.left_stick.0, self.left_stick.1,
            self.right_stick.0, self.right_stick.1,
            0x00, 0x00,
            self.sequence_number,
            b[0], b[1], b[2], b[3],
            0xac, 0x0a, 0xaf, 0x14,
            gx[0], gx[1], gy[0], gy[1], gz[0], gz[1],
            ax[0], ax[1], ay[0], ay[1], az[0], az[1],
            ts[0], ts[1], ts[2], ts[3],
            0x1b,
            t0[0], t0[1], t0[2], t0[3],
            t1[0], t1[1], t1[2], t1[3],
            0xbd,
            0x09,
            0x09,
            0x00, 0x00, 0x00, 0x00, 0x00, 0x92, 0xa0, 0xe8,
            0xae,
            0x29,
            0x0c,
            0x00, 0xb0, 0x7e, 0xc8, 0x76, 0xf8, 0xcc, 0xa2, 0x2b,
        ];
        assert(r@ =~= input_report_bytes(*self, sensors_timestamp));
        proof {
            assert(r@.subrange(28, 32) =~= u32_le_bytes(sensors_timestamp));
            assert(r@.subrange(33, 37) =~= touch_point_bytes(self.touch_points[0]));
            assert(r@.subrange(37, 41) =~= touch_point_bytes(self.touch_points[1]));
            lemma_u32_le_roundtrip(sensors_timestamp);
            lemma_i16_le_roundtrip(self.gyro.0);
            lemma_i16_le_roundtrip(self.gyro.1);
            lemma_i16_le_roundtrip(self.gyro.2);
            lemma_i16_le_roundtrip(self.accel.0);
            lemma_i16_le_roundtrip(self.accel.1);
            lemma_i16_le_roundtrip(self.accel.2);
            if self.touch_points[0].id < 128 {
                lemma_touch_point_bytes_roundtrip(self.touch_points[0]);
            }
            if self.touch_points[1].id < 128 {
                lemma_touch_point_bytes_roundtrip(self.touch_points[1]);
            }
        }
        r
    }

    /// Counts one more report sent: the sequence number goes up by one,
    /// wrapping from 255 to 0.
    pub fn advance_sequence_number(&mut self)
        ensures
            final(self).sequence_number == (old(self).sequence_number + 1) % 256,
            final(self).accel == old(self).accel,
            final(self).gyro == old(self).gyro,
            final(self).buttons == old(self).buttons,
            final(self).left_stick == old(self).left_stick,
            final(self).right_stick == old(self).right_stick,
            final(self).touch_points == old(self).touch_points,
    {
        if let Some(sequence_number) = self.sequence_number.checked_add(1) {
            self.sequence_number = sequence_number;
        } else {
            self.sequence_number = 0;
        }
    }
}


/// The hat switch is 8 exactly when no direction is held, and otherwise one
/// of the eight compass points 0 to 7: a single direction gives up 0, right 2,
/// down 4, left 6, and two neighbouring directions the point between them.
pub proof fn lemma_hat_switch_compass(up: bool, down: bool, left: bool, right: bool)
    ensures
        hat_switch(up, down, left, right) <= 8,
        (hat_switch(up, down, left, right) == 8) <==> (!up && !down && !left && !right),
        hat_switch(true, false, false, false) == 0,
        hat_switch(true, false, false, true) == 1,
        hat_switch(false, false, false, true) == 2,
        hat_switch(false, true, false, true) == 3,
        hat_switch(false, true, false, false) == 4,
        hat_switch(false, true, true, false) == 5,
        hat_switch(false, false, true, false) == 6,
        hat_switch(true, false, true, false) == 7,
        hat_switch(false, false, false, false) == 8,
        hat_switch(true, true, false, false) == 0,
        hat_switch(false, false, true, true) == 2,
        hat_switch(true, true, true, false) == 5,
        hat_switch(true, true, false, true) == 1,
        hat_switch(true, false, true, true) == 2,
        hat_switch(false, true, true, true) == 3,
        hat_switch(true, true, true, true) == 3,
{
}

/// The second, third and fourth button bytes are bits 16 to 23, 8 to 15 and
/// 0 to 7 of the buttons, so together they give back the low 24 bits.
pub proof fn lemma_button_bytes_low_bytes(v: u32)
    ensures
        button_bytes(v)[1] == (v >> 16u32) as u8,
        button_bytes(v)[2] == (v >> 8u32) as u8,
        button_bytes(v)[3] == v as u8,
        ((button_bytes(v)[1] as u32) << 16u32) | ((button_bytes(v)[2] as u32) << 8u32) | (
        button_bytes(v)[3] as u32) == v & 0x00ff_ffff,
{
    assert(((((v >> 16u32) as u8) as u32) << 16u32) | ((((v >> 8u32) as u8) as u32) << 8u32) | ((
    v as u8) as u32) == v & 0x00ff_ffff) by (bit_vector);
}

/// In the button bytes, the high nibble of the first byte carries the four
/// face buttons and its low nibble the hat switch.
pub proof fn lemma_button_bytes_first_byte(v: u32)
    ensures
        button_bytes(v)[0] >> 4u8 == (v >> 28u32) as u8,
        button_bytes(v)[0] & 0x0f == hat_switch(
            v & DualsenseButtons::DPAD_UP != 0,
            v & DualsenseButtons::DPAD_DOWN != 0,
            v & DualsenseButtons::DPAD_LEFT != 0,
            v & DualsenseButtons::DPAD_RIGHT != 0,
        ),
{
    let hat = hat_switch(
        v & DualsenseButtons::DPAD_UP != 0,
        v & DualsenseButtons::DPAD_DOWN != 0,
        v & DualsenseButtons::DPAD_LEFT != 0,
        v & DualsenseButtons::DPAD_RIGHT != 0,
    );
    lemma_hat_switch_compass(
        v & DualsenseButtons::DPAD_UP != 0,
        v & DualsenseButtons::DPAD_DOWN != 0,
        v & DualsenseButtons::DPAD_LEFT != 0,
        v & DualsenseButtons::DPAD_RIGHT != 0,
    );
    assert((((v >> 24u32) as u8 & 0xf0) | hat) >> 4u8 == (v >> 28u32) as u8
        && (((v >> 24u32) as u8 & 0xf0) | hat) & 0x0f == hat) by (bit_vector)
        requires
            hat <= 8;
}

/// Pressing buttons and then releasing the same buttons leaves every other
/// button as it was, and the released ones up.
pub proof fn lemma_press_then_release(before: u32, b: u32)
    ensures
        ((before | b) & !b) == before & !b,
        before & b == 0 ==> ((before | b) & !b) == before,
{
    assert(((before | b) & !b) == before & !b) by (bit_vector);
    assert(before & b == 0 ==> ((before | b) & !b) == before) by (bit_vector);
}

/// The Steam Controller buttons that have a DualSense counterpart.
pub open spec fn steam_buttons_shown() -> u32 {
    Buttons::BTN_A | Buttons::BTN_B | Buttons::BTN_X | Buttons::BTN_Y | Buttons::BTN_R1
        | Buttons::BTN_L1 | Buttons::BTN_R2 | Buttons::BTN_L2 | Buttons::BTN_RIGHT_PAD_CLICK
        | Buttons::BTN_LEFT_PAD_CLICK | Buttons::BTN_THUMBR | Buttons::BTN_THUMBL
        | Buttons::BTN_DPAD_UP | Buttons::BTN_DPAD_DOWN | Buttons::BTN_DPAD_LEFT
        | Buttons::BTN_DPAD_RIGHT | Buttons::BTN_START | Buttons::BTN_SELECT | Buttons::BTN_STEAM
        | Buttons::BTN_QUICK_ACCESS
}

/// Converting Steam Controller buttons to DualSense buttons: the result only
/// holds named DualSense buttons; buttons without a counterpart change
/// nothing; and converting a union is the union of the conversions, so each
/// button is converted on its own.
pub proof fn lemma_dualsense_from_steam(a: u32, b: u32)
    ensures
        dualsense_bits_from_steam(a) & !DUALSENSE_BUTTONS_ALL == 0,
        dualsense_bits_from_steam(a) == dualsense_bits_from_steam(a & steam_buttons_shown()),
        dualsense_bits_from_steam(a | b) == dualsense_bits_from_steam(a) | dualsense_bits_from_steam(b),
{
    assert(dualsense_bits_from_steam(a) & !DUALSENSE_BUTTONS_ALL == 0) by (bit_vector);
    assert(dualsense_bits_from_steam(a) == dualsense_bits_from_steam(a & steam_buttons_shown()))
        by (bit_vector);
    assert(dualsense_bits_from_steam(a | b) == dualsense_bits_from_steam(a)
        | dualsense_bits_from_steam(b)) by (bit_vector);
}

/// The sequence number after `n` more reports, starting from `s`.
pub open spec fn sequence_after(s: u8, n: nat) -> u8
    decreases n,
{
    if n == 0 {
        s
    } else {
        ((sequence_after(s, (n - 1) as nat) + 1) % 256) as u8
    }
}

/// After `n` reports the sequence number has gone up by `n` modulo 256, so it
/// is back where it started after every 256 reports.
pub proof fn lemma_sequence_number_wraps(s: u8, n: nat)
    ensures
        sequence_after(s, n) == (s + n) % 256,
        sequence_after(s, n + 256) == sequence_after(s, n),
{
    lemma_sequence_after_mod(s, n);
    lemma_sequence_after_mod(s, n + 256);
}

proof fn lemma_sequence_after_mod(s: u8, n: nat)
    ensures
        sequence_after(s, n) == (s + n) % 256,
    decreases n,
{
    if n > 0 {
        lemma_sequence_after_mod(s, (n - 1) as nat);
    }
}

/// A contact on a pad that an active touch point already follows stays on a
/// touch point that follows that pad and is active.
pub proof fn lemma_contact_keeps_its_touch_point(tps: [TouchPoint; 2], pad: MappedPad, k: int)
    requires
        0 <= k < 2,
        tps[k].mapped_pad == pad,
        tps[k].active,
    ensures
        tps[best_touch_point(tps, pad, true)].mapped_pad == pad,
        tps[best_touch_point(tps, pad, true)].active,
{
}

/// A pad report whose raw values are all zero lifts the touch point and lets
/// go of its pad, keeping its id and position; any other report puts it down
/// at `(x, y)`. A touch point keeps its id while it stays down or is lifted,
/// and takes the next id, wrapping within 7 bits, exactly when a lifted point
/// is touched again, taking the pad as well.
pub proof fn lemma_touch_id_changes_on_new_contact(
    tp: TouchPoint,
    mapped_pad: MappedPad,
    pad_x: i16,
    pad_y: i16,
    pad_pressure: i16,
    x: u16,
    y: u16,
)
    requires
        tp.id < 128,
    ensures
        ({
            let after = touched_point(tp, mapped_pad, pad_x, pad_y, pad_pressure, x, y);
            &&& after.id < 128
            &&& (after.id != tp.id) <==> (!tp.active && after.active)
            &&& (pad_x == 0 && pad_y == 0 && pad_pressure == 0) ==> {
                &&& !after.active
                &&& after.mapped_pad == MappedPad::Unmapped
                &&& after.id == tp.id && after.x == tp.x && after.y == tp.y
            }
            &&& !(pad_x == 0 && pad_y == 0 && pad_pressure == 0) ==> {
                &&& after.active
                &&& after.x == x && after.y == y
                &&& tp.active ==> after.id == tp.id && after.mapped_pad == tp.mapped_pad
                &&& !tp.active ==> after.id == (tp.id + 1) % 128 && after.mapped_pad == mapped_pad
            }
        }),
{
}

/// Where a new contact goes: to a point already following its pad with the
/// same activity; else, on the left pad, to the first point and, on the right
/// pad, to the second, when that point is lifted.
pub proof fn lemma_new_contact_touch_point(tps: [TouchPoint; 2], pad: MappedPad)
    ensures
        tps[0].mapped_pad == pad && tps[0].active ==> best_touch_point(tps, pad, true) == 0,
        !(tps[0].mapped_pad == pad && tps[0].active) && tps[1].mapped_pad == pad && tps[1].active
            ==> best_touch_point(tps, pad, true) == 1,
        !(tps[0].mapped_pad == pad && tps[0].active) && !(tps[1].mapped_pad == pad && tps[1].active)
            && pad == MappedPad::Left && !tps[0].active ==> best_touch_point(tps, pad, true) == 0,
        !(tps[0].mapped_pad == pad && tps[0].active) && !(tps[1].mapped_pad == pad && tps[1].active)
            && pad == MappedPad::Right && !tps[1].active ==> best_touch_point(tps, pad, true) == 1,
        0 <= best_touch_point(tps, pad, true) < 2,
{
}


/// The HID report descriptor of a DualSense controller over USB.
pub const REPORT_DESCRIPTOR: [u8; 273] = [
    0x05, 0x01,       // Usage Page (Generic Desktop Ctrls)
    0x09, 0x05,       // Usage (Game Pad)
    0xA1, 0x01,       // Collection (Application)
    0x85, 0x01,       //   Report ID (1)
    0x09, 0x30,       //   Usage (X)
    0x09, 0x31,       //   Usage (Y)
    0x09, 0x32,       //   Usage (Z)
    0x09, 0x35,       //   Usage (Rz)
    0x09, 0x33,       //   Usage (Rx)
    0x09, 0x34,       //   Usage (Ry)
    0x15, 0x00,       //   Logical Minimum (0)
    0x26, 0xFF, 0x00, //   Logical Maximum (255)
    0x75, 0x08,       //   Report Size (8)
    0x95, 0x06,       //   Report Count (6)
    0x81, 0x02,       //   Input (Data,Var,Abs,No Wrap,Linear,Preferred State,No Null Position)
    0x06, 0x00, 0xFF, //   Usage Page (Vendor Defined 0xFF00)
    0x09, 0x20,       //   Usage (0x20)
    0x95, 0x01,       //   Report Count (1)
    0x81, 0x02,       //   Input (Data,Var,Abs,No Wrap,Linear,Preferred State,No Null Position)
    0x05, 0x01,       //   Usage Page (Generic Desktop Ctrls)
    0x09, 0x39,       //   Usage (Hat switch)
    0x15, 0x00,       //   Logical Minimum (0)
    0x25, 0x07,       //   Logical Maximum (7)
    0x35, 0x00,       //   Physical Minimum (0)
    0x46, 0x3B, 0x01, //   Physical Maximum (315)
    0x65, 0x14,       //   Unit (System: English Rotation, Length: Centimeter)
    0x75, 0x04,       //   Report Size (4)
    0x95, 0x01,       //   Report Count (1)
    0x81, 0x42,       //   Input (Data,Var,Abs,No Wrap,Linear,Preferred State,Null State)
    0x65, 0x00,       //   Unit (None)
    0x05, 0x09,       //   Usage Page (Button)
    0x19, 0x01,       //   Usage Minimum (0x01)
    0x29, 0x0F,       //   Usage Maximum (0x0F)
    0x15, 0x00,       //   Logical Minimum (0)
    0x25, 0x01,       //   Logical Maximum (1)
    0x75, 0x01,       //   Report Size (1)
    0x95, 0x0F,       //   Report Count (15)
    0x81, 0x02,       //   Input (Data,Var,Abs,No Wrap,Linear,Preferred State,No Null Position)
    0x06, 0x00, 0xFF, //   Usage Page (Vendor Defined 0xFF00)
    0x09, 0x21,       //   Usage (0x21)
    0x95, 0x0D,       //   Report Count (13)
    0x81, 0x02,       //   Input (Data,Var,Abs,No Wrap,Linear,Preferred State,No Null Position)
    0x06, 0x00, 0xFF, //   Usage Page (Vendor Defined 0xFF00)
    0x09, 0x22,       //   Usage (0x22)
    0x15, 0x00,       //   Logical Minimum (0)
    0x26, 0xFF, 0x00, //   Logical Maximum (255)
    0x75, 0x08,       //   Report Size (8)
    0x95, 0x34,       //   Report Count (52)
    0x81, 0x02,       //   Input (Data,Var,Abs,No Wrap,Linear,Preferred State,No Null Position)
    0x85, 0x02,       //   Report ID (2)
    0x09, 0x23,       //   Usage (0x23)
    0x95, 0x2F,       //   Report Count (47)
    0x91, 0x02,       //   Output (Data,Var,Abs,No Wrap,Linear,Preferred State,No Null Position,Non-volatile)
    0x85, 0x05,       //   Report ID (5)
    0x09, 0x33,       //   Usage (0x33)
    0x95, 0x28,       //   Report Count (40)
    0xB1, 0x02,       //   Feature (Data,Var,Abs,No Wrap,Linear,Preferred State,No Null Position,Non-volatile)
    0x85, 0x08,       //   Report ID (8)
    0x09, 0x34,       //   Usage (0x34)
    0x95, 0x2F,       //   Report Count (47)
    0xB1, 0x02,       //   Feature (Data,Var,Abs,No Wrap,Linear,Preferred State,No Null Position,Non-volatile)
    0x85, 0x09,       //   Report ID (9)
    0x09, 0x24,       //   Usage (0x24)
    0x95, 0x13,       //   Report Count (19)
    0xB1, 0x02,       //   Feature (Data,Var,Abs,No Wrap,Linear,Preferred State,No Null Position,Non-volatile)
    0x85, 0x0A,       //   Report ID (10)
    0x09, 0x25,       //   Usage (0x25)
    0x95, 0x1A,       //   Report Count (26)
    0xB1, 0x02,       //   Feature (Data,Var,Abs,No Wrap,Linear,Preferred State,No Null Position,Non-volatile)
    0x85, 0x20,       //   Report ID (32)
    0x09, 0x26,       //   Usage (0x26)
    0x95, 0x3F,       //   Report Count (63)
    0xB1, 0x02,       //   Feature (Data,Var,Abs,No Wrap,Linear,Preferred State,No Null Position,Non-volatile)
    0x85, 0x21,       //   Report ID (33)
    0x09, 0x27,       //   Usage (0x27)
    0x95, 0x04,       //   Report Count (4)
    0xB1, 0x02,       //   Feature (Data,Var,Abs,No Wrap,Linear,Preferred State,No Null Position,Non-volatile)
    0x85, 0x22,       //   Report ID (34)
    0x09, 0x40,       //   Usage (0x40)
    0x95, 0x3F,       //   Report Count (63)
    0xB1, 0x02,       //   Feature (Data,Var,Abs,No Wrap,Linear,Preferred State,No Null Position,Non-volatile)
    0x85, 0x80,       //   Report ID (-128)
    0x09, 0x28,       //   Usage (0x28)
    0x95, 0x3F,       //   Report Count (63)
    0xB1, 0x02,       //   Feature (Data,Var,Abs,No Wrap,Linear,Preferred State,No Null Position,Non-volatile)
    0x85, 0x81,       //   Report ID (-127)
    0x09, 0x29,       //   Usage (0x29)
    0x95, 0x3F,       //   Report Count (63)
    0xB1, 0x02,       //   Feature (Data,Var,Abs,No Wrap,Linear,Preferred State,No Null Position,Non-volatile)
    0x85, 0x82,       //   Report ID (-126)
    0x09, 0x2A,       //   Usage (0x2A)
    0x95, 0x09,       //   Report Count (9)
    0xB1, 0x02,       //   Feature (Data,Var,Abs,No Wrap,Linear,Preferred State,No Null Position,Non-volatile)
    0x85, 0x83,       //   Report ID (-125)
    0x09, 0x2B,       //   Usage (0x2B)
    0x95, 0x3F,       //   Report Count (63)
    0xB1, 0x02,       //   Feature (Data,Var,Abs,No Wrap,Linear,Preferred State,No Null Position,Non-volatile)
    0x85, 0x84,       //   Report ID (-124)
    0x09, 0x2C,       //   Usage (0x2C)
    0x95, 0x3F,       //   Report Count (63)
    0xB1, 0x02,       //   Feature (Data,Var,Abs,No Wrap,Linear,Preferred State,No Null Position,Non-volatile)
    0x85, 0x85,       //   Report ID (-123)
    0x09, 0x2D,       //   Usage (0x2D)
    0x95, 0x02,       //   Report Count (2)
    0xB1, 0x02,       //   Feature (Data,Var,Abs,No Wrap,Linear,Preferred State,No Null Position,Non-volatile)
    0x85, 0xA0,       //   Report ID (-96)
    0x09, 0x2E,       //   Usage (0x2E)
    0x95, 0x01,       //   Report Count (1)
    0xB1, 0x02,       //   Feature (Data,Var,Abs,No Wrap,Linear,Preferred State,No Null Position,Non-volatile)
    0x85, 0xE0,       //   Report ID (-32)
    0x09, 0x2F,       //   Usage (0x2F)
    0x95, 0x3F,       //   Report Count (63)
    0xB1, 0x02,       //   Feature (Data,Var,Abs,No Wrap,Linear,Preferred State,No Null Position,Non-volatile)
    0x85, 0xF0,       //   Report ID (-16)
    0x09, 0x30,       //   Usage (0x30)
    0x95, 0x3F,       //   Report Count (63)
    0xB1, 0x02,       //   Feature (Data,Var,Abs,No Wrap,Linear,Preferred State,No Null Position,Non-volatile)
    0x85, 0xF1,       //   Report ID (-15)
    0x09, 0x31,       //   Usage (0x31)
    0x95, 0x3F,       //   Report Count (63)
    0xB1, 0x02,       //   Feature (Data,Var,Abs,No Wrap,Linear,Preferred State,No Null Position,Non-volatile)
    0x85, 0xF2,       //   Report ID (-14)
    0x09, 0x32,       //   Usage (0x32)
    0x95, 0x0F,       //   Report Count (15)
    0xB1, 0x02,       //   Feature (Data,Var,Abs,No Wrap,Linear,Preferred State,No Null Position,Non-volatile)
    0x85, 0xF4,       //   Report ID (-12)
    0x09, 0x35,       //   Usage (0x35)
    0x95, 0x3F,       //   Report Count (63)
    0xB1, 0x02,       //   Feature (Data,Var,Abs,No Wrap,Linear,Preferred State,No Null Position,Non-volatile)
    0x85, 0xF5,       //   Report ID (-11)
    0x09, 0x36,       //   Usage (0x36)
    0x95, 0x03,       //   Report Count (3)
    0xB1, 0x02,       //   Feature (Data,Var,Abs,No Wrap,Linear,Preferred State,No Null Position,Non-volatile)
    0xC0,             // End Collection
];

/// The reply to a request for feature report 0x05: motion-sensor calibration.
pub const CALIBRATION_INFO: [u8; 41] = [
    0x05,
    0x00, // gyro_pitch_bias
    0x00,
    0x00, // gyro_yaw_bias
    0x00,
    0x00, // gyro_roll_bias
    0x00,
    0x10, // gyro_pitch_plus
    0x27,
    0xF0, // gyro_pitch_minus
    0xD8,
    0x10, // gyro_yaw_plus
    0x27,
    0xF0, // gyro_yaw_minus
    0xD8,
    0x10, // gyro_roll_plus
    0x27,
    0xF0, // gyro_roll_minus
    0xD8,
    0xF4, // gyro_speed_plus
    0x01,
    0xF4, // gyro_speed_minus
    0x01,
    0x10, // acc_x_plus
    0x27,
    0xF0, // acc_x_minus
    0xD8,
    0x10, // acc_y_plus
    0x27,
    0xF0, // acc_y_minus
    0xD8,
    0x10, // acc_z_plus
    0x27,
    0xF0, // acc_z_minus
    0xD8, 0x0B, 0x00, 0x00, 0x00, 0x00, 0x00,
];

/// The reply to a request for feature report 0x20: firmware information.
pub const FIRMWARE_INFO: [u8; 64] = [
    0x20, 0x4A, 0x75, 0x6E, 0x20, 0x31, 0x39, 0x20, 0x32, 0x30, 0x32, 0x33, 0x31, 0x34, 0x3A, 0x34,
    0x37, 0x3A, 0x33, 0x34, 0x03, 0x00, 0x44, 0x00, 0x08, 0x02, 0x00, 0x01, 0x36, 0x00, 0x00, 0x01,
    0xC1, 0xC8, 0x00, 0x00, 0x00, 0x00, 0x00, 0x00, 0x00, 0x00, 0x00, 0x00, 0x54, 0x01, 0x00, 0x00,
    0x14, 0x00, 0x00, 0x00, 0x0B, 0x00, 0x01, 0x00, 0x06, 0x00, 0x00, 0x00, 0x00, 0x00, 0x00, 0x00,
];

/// The reply to a request for feature report 0x09: pairing information.
pub const PAIRING_INFO: [u8; 20] = [
    0x09, 0x74, 0xE7, 0xD6, 0x3A, 0x53, 0x35, 0x08, 0x25, 0x00,
    0x1E, 0x00, 0xEE, 0x74, 0xD0, 0xBC, 0x00, 0x00, 0x00, 0x00,
];

/// The USB vendor id of a DualSense controller.
pub const DUALSENSE_VENDOR_ID: u32 = 0x054c;
/// The USB product id of a DualSense controller.
pub const DUALSENSE_PRODUCT_ID: u32 = 0x0ce6;
/// The device version of the DualSense controller shown.
pub const DUALSENSE_VERSION: u32 = 0x100;
/// The touchpad's width, in touchpad units.
pub const DUALSENSE_TOUCHPAD_WIDTH: u16 = 1920;
/// The touchpad's height, in touchpad units.
pub const DUALSENSE_TOUCHPAD_HEIGHT: u16 = 1080;

/// The reply to a host's request for a feature report: calibration (0x05),
/// pairing (0x09) and firmware (0x20) information; other reports get none.
pub open spec fn report_reply(report_number: u8) -> Option<Seq<u8>> {
    if report_number == 0x05 {
        Some(CALIBRATION_INFO@)
    } else if report_number == 0x09 {
        Some(PAIRING_INFO@)
    } else if report_number == 0x20 {
        Some(FIRMWARE_INFO@)
    } else {
        None
    }
}

/// The bytes to answer a host's request for feature report `report_number`
/// with, if it is one that the controller answers.
pub fn get_report_reply(report_number: u8) -> (r: Option<Vec<u8>>)
    ensures
        r matches Some(v) ==> report_reply(report_number) == Some(v@),
        r is None ==> report_reply(report_number) is None,
        report_number == 0x05 ==> (r matches Some(v) && v@ == CALIBRATION_INFO@),
        report_number == 0x09 ==> (r matches Some(v) && v@ == PAIRING_INFO@),
        report_number == 0x20 ==> (r matches Some(v) && v@ == FIRMWARE_INFO@),
        report_number != 0x05 && report_number != 0x09 && report_number != 0x20 ==> r is None,
{
    if report_number == 0x05 {
        Some(vstd::slice::slice_to_vec(&CALIBRATION_INFO))
    } else if report_number == 0x09 {
        Some(vstd::slice::slice_to_vec(&PAIRING_INFO))
    } else if report_number == 0x20 {
        Some(vstd::slice::slice_to_vec(&FIRMWARE_INFO))
    } else {
        None
    }
}

} // verus!
