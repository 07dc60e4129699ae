[package]
name = "momcap"
version = "0.1.0"
edition = "2021"
publish = false

[dependencies]
coreaudio-rs = "*"
core-foundation-sys = "*"
