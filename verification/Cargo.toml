[package]
name = "evdotool"
version = "0.1.0"
edition = "2021"
publish = false

[dependencies]
evdev-rs = "*"
rlua = "*"
nix = { version = "*", features = ["event", "time", "poll"] }
rand = "0.8"
