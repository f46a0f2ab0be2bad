[package]
name = "bell_clock"
version = "0.1.0"
edition = "2021"
publish = false

[dependencies]
chrono = "*"
subjective = "*"

[dev-dependencies]
fixed = "*"
