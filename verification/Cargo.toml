[package]
name = "ph-esp32-mac"
version = "0.1.0"
edition = "2021"
publish = false

[dependencies]
embedded-hal = "=1.0.0"
critical-section = "=1.2.0"
embassy-net-driver = "=0.2.0"
static_cell = "=2.1.1"
smoltcp = { version = "=0.14.0", default-features = false, features = ["medium-ethernet", "proto-ipv4", "socket-raw"] }
