[package]
name = "haptic_protocols"
version = "0.1.0"
edition = "2021"
publish = false

[dependencies]
async-mutex = "1"
futures = "0.3"
