[package]
name = "canopen_rs"
version = "0.1.0"
edition = "2021"
publish = false

[dependencies]
async-trait = "0.1"
futures = "0.3"
socketcan = { version = "=4.0.0", features = ["tokio"] }
tokio = { version = "1", features = ["macros", "rt", "sync", "time"] }
