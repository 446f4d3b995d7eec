[package]
name = "podders"
version = "0.1.0"
edition = "2021"
publish = false

[dependencies]
arrow = { version = "*", default-features = false, features = ["ipc"] }
flatbuffers = "*"
uuid = { version = "*", features = ["v4"] }
