[package]
name = "rust-fe"
version = "0.1.0"
edition = "2021"
publish = false

[dependencies]
sqlparser = "=0.63.0"
uuid = { version = "=1.29.0", features = ["v4"] }
serde = { version = "=1.0.229", features = ["derive"] }
toml = "=1.1.8"
tokio = { version = "=1.54.1", features = ["sync", "rt", "macros"] }
parking_lot = "=0.12.5"
arrow = { version = "=60.1.0", default-features = false, features = ["ipc"] }
chrono = "=0.4.45"
datafusion = { version = "*", default-features = false }
