[package]
name = "rose_buddy"
version = "0.1.0"
edition = "2021"
publish = false

[dependencies]
uuid = { version = "1", features = ["v4"] }
serde = { version = "1", features = ["derive"] }
serde_json = "1"
crossbeam-channel = "0.5"
chrono = { version = "0.4", default-features = false, features = ["clock", "std"] }
