[package]
name = "rosu"
version = "0.1.0"
edition = "2021"
publish = false

[dependencies]
rust-ini = "*"
rosu-map = "*"
osu-replay-parser = "*"
cgmath = "*"
thiserror = "*"
