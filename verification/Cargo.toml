[package]
name = "midi2vol_mac"
version = "0.1.0"
edition = "2021"
publish = false

[dependencies]
coremidi = "=0.6.0"
oneshot = { version = "=0.2.1", features = ["std"] }
