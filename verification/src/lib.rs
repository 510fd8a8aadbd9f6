//! The logic of a user-space driver that shows a Steam Controller to Linux as
//! an evdev gamepad or as a DualSense controller: reading the controller's
//! input reports, building its command reports, turning its buttons and pads
//! into DualSense state and reports, and mapping them to evdev events.

pub mod buttons;
pub mod dualsense;
pub mod evdev;
pub mod little_endian;
pub mod steam_controller;
