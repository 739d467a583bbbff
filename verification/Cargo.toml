[package]
name = "teiryo"
version = "0.1.0"
edition = "2021"
publish = false

[dependencies]
async-trait = "0.1"
bincode = { version = "=2.0.1", features = ["serde"] }
bytes = "=1.12.1"
chrono = { version = "=0.4.45", features = ["serde"] }
crossterm = { version = "=0.28.1", features = ["event-stream"] }
futures = "0.3"
libc = "0.2"
ratatui = "=0.29.0"
reqwest = { version = "=0.12.28", default-features = false, features = ["json", "rustls-tls"] }
rusqlite = { version = "=0.32.1", features = ["bundled"] }
secrecy = "=0.10.3"
serde = { version = "1", features = ["derive"] }
serde_json = { version = "=1.0.154", features = ["raw_value"] }
thiserror = "2"
tokio = { version = "1", features = ["full"] }
tokio-util = { version = "=0.7.20", features = ["codec"] }
tracing = "0.1"
ulid = { version = "=1.2.1", features = ["serde"] }
unicode-segmentation = "=1.13.3"
unicode-width = "=0.2.0"

[dev-dependencies]
proptest = "1"
