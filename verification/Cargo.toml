[package]
name = "lockctl"
version = "0.1.0"
edition = "2021"
publish = false

[dependencies]
nmea0183 = "*"
nrf52840-hal = "0.14"
embedded-hal = "0.2"
rtt-target = { version = "0.3", features = ["cortex-m"] }
