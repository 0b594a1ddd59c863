[package]
name = "display_core"
version = "0.1.0"
edition = "2021"
publish = false

[dependencies]
chrono = "=0.4.45"
embedded-graphics = "=0.7.1"
image = "=0.25.10"
linux-embedded-hal = "=0.4.1"
minreq = "=3.0.0"
rand = "=0.10.3"
rpi-led-matrix = { version = "=0.4.0", features = ["c-stubs"] }
rppal = "=0.22.1"
rulinalg = "=0.4.2"
sensor-scd30 = "=0.5.0"
signal-hook = "=0.4.4"
tinybmp = "=0.3.3"
