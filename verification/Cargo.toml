[package]
name = "heartbeater"
version = "0.1.0"
edition = "2021"
publish = false

[dependencies]
chrono = "=0.4.45"
yaml-rust = "=0.4.5"
paho-mqtt = { version = "=0.12.5", default-features = false }
