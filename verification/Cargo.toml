[package]
name = "swaynoti"
version = "0.1.0"
edition = "2021"
publish = false

[dependencies]
anyhow = "1"
async-channel = "2"
chrono = { version = "0.4", default-features = false, features = ["clock", "std"] }
directories = "5"
parking_lot = "0.12"
regex = "1"
rusqlite = { version = "*", features = ["bundled"] }
serde = { version = "1", features = ["derive"] }
serde_json = "1"
tokio = { version = "1", features = ["rt-multi-thread", "macros", "net", "io-util", "time", "sync", "signal"] }
toml = "0.8"
tracing = "0.1"
zbus = { version = "5", default-features = false, features = ["tokio"] }
