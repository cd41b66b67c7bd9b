[package]
name = "my_reverse_proxy"
version = "0.1.0"
edition = "2021"
publish = false

[dependencies]
ahash = "=0.8.12"
parking_lot = "=0.12.5"
arc-swap = "=1.7.1"
base64 = "=0.22.1"
serde = { version = "=1.0.229", features = ["derive"] }
tokio = { version = "=1.54.1", features = ["sync", "rt", "macros", "time"] }
reqwest = { version = "0.12", default-features = false, features = ["json"] }
web-sys = { version = "0.3", features = ["Window", "Location"] }
