# bt2usb_core

The verified logic of a bridge that turns Bluetooth Classic HID devices
(keyboards and the Magic Trackpad 2) into USB ones.

- `src/` is the library, verified with Verus.
  - `classic`: Class of Device decoding, keyboard report translation
  - `inquiry`: parsers for the three formats of Inquiry results
  - `scan_cache`: what Inquiry told about each device
  - `link_keys`: link keys of paired devices
  - `pairing`, `messages`: pairing state, and what the user is told
  - `profile`, `reports`: how a device is driven, and what its reports become
  - `event_mask`: the HCI events that the controller reports
  - `task`: the Classic task as a state machine, with its vocabulary in
    `task_types`, its rules in `task_rules` and what holds of it as a whole in
    `task_laws`
- `tests/` runs the library on concrete values.
- `app/` is ordinary Rust around it: it performs what the task asks for on a
  controller, a host stack and the rest of the firmware.

Functions named `law_...` state what holds of the library as a whole. Functions
marked `external_body`, and `assume_specification` items, state what is relied on
of `heapless` and `bt-hci`.
