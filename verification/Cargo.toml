[package]
name = "sqlite_backend"
version = "0.1.0"
edition = "2021"
publish = false

[dependencies]
uuid = { version = "=1.29.0", features = ["v4", "v5", "v7"] }
serde = { version = "=1.0.229", features = ["derive"] }
serde_json = "=1.0.154"
openraft = { version = "=0.9.25", features = ["serde", "storage-v2"] }
rusqlite = { version = "=0.40.2", features = ["bundled"] }
tokio-rusqlite = { version = "=0.8.0", features = ["bundled"] }
tokio = { version = "=1.54.1", features = ["rt", "macros", "sync"] }
async-trait = "=0.1.92"
tracing = "=0.1.44"
chrono = "=0.4.45"
