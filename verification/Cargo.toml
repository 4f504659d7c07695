[package]
name = "gemini_rust"
version = "0.1.0"
edition = "2021"
publish = false

[dependencies]
serde = { version = "=1.0.229", features = ["derive"] }
serde_json = "=1.0.151"
rand = "=0.10.3"
thiserror = "=2.0.21"
chrono = { version = "=0.4.45", features = ["serde"] }
tokio = { version = "=1.53.2", features = ["rt", "time", "sync", "macros"] }
futures = "=0.3.34"
reqwest = { version = "=0.13.5", default-features = false, features = ["json", "query", "stream"] }
tracing = "=0.1.44"
