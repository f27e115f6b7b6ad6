[package]
name = "human_duration"
version = "0.1.0"
edition = "2021"
publish = false

[dependencies]
time = "0.3"
chrono = { version = "0.4", default-features = false }
