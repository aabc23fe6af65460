[package]
name = "dr_ones_network"
version = "0.1.0"
edition = "2021"
publish = false

[dependencies]
crossbeam-channel = "0.5"
rand = "0.8"
chrono = "0.4"
once_cell = "1"
serde = { version = "1", features = ["derive"] }
