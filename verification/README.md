# sc_evdev

The verified core of a Linux user-space driver that shows a Steam Controller
as an evdev gamepad or as a DualSense controller.

- `src/` is the library, verified with Verus:
  - `buttons.rs`: the Steam Controller's button set and its iteration order;
  - `steam_controller.rs`: command and rumble reports, reading input reports,
    the events each report asks for, and choosing the devices to drive;
  - `dualsense.rs`: DualSense buttons, touch points and controller state, the
    input report and the replies to feature-report requests;
  - `evdev.rs`: the keys and axes of the evdev gamepad;
  - `little_endian.rs`: little-endian integer encodings.
- `app/` is the program around it: hidapi, uhid and uinput I/O, threads, and
  the floating-point scaling of stick and pad positions.
- `tests/` exercises the library on concrete values.
