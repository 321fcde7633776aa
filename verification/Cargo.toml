[package]
name = "lamp_control"
version = "0.1.0"
edition = "2021"
publish = false

[dependencies]
itertools = "0.12"
mdns-sd = "0.7"
reqwest = { version = "0.11", default-features = false }
