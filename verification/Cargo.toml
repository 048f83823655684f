[package]
name = "bt2usb_core"
version = "0.1.0"
edition = "2021"
publish = false

[dependencies]
bt-hci = "=0.8.1"
defmt = "=1.2.0"
embassy-futures = "=0.1.2"
embassy-sync = "=0.8.0"
embassy-time = "=0.5.1"
heapless = "=0.8.0"
portable-atomic = "=1.15.0"
