[package]
name = "backseat_safe_system_2k"
version = "0.1.0"
edition = "2021"
publish = false

[dependencies]
chrono = "0.4"
clap = { version = "3.2", features = ["derive"] }
crossbeam-channel = "0.5"
crossbeam-utils = "0.8"
num-format = "0.4"
raylib = "3.7"
serde = { version = "1", features = ["derive"] }
serde_json = "1"
