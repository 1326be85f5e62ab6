[package]
name = "rtlsdr"
version = "0.1.0"
edition = "2021"
publish = false

[dependencies]
libc = "0.2"
libusb1-sys = "0.7"
log = "0.4"
rusb = "0.9"
