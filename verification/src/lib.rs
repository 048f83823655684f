//! Bridge logic for Bluetooth Classic HID devices: what a device is, how it is
//! paired and remembered, and what its reports become on the USB side.

pub mod bytes;
pub mod classic;
pub mod event_mask;
pub mod inquiry;
pub mod link_keys;
pub mod messages;
pub mod pairing;
pub mod profile;
pub mod reports;
pub mod scan_cache;
pub mod task;
pub mod task_laws;
pub mod task_rules;
pub mod task_steps;
pub mod task_types;
