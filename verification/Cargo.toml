[package]
name = "input_device"
version = "0.1.0"
edition = "2021"
publish = false

[dependencies]
evdev = "=0.13.2"
log = "=0.4.34"
thiserror = "=2.0.21"
x11rb = { version = "=0.14.0", features = ["xtest"] }
