[package]
name = "warp"
version = "0.1.0"
edition = "2021"
publish = false

[dependencies]
sha2 = "=0.10.9"
chrono = { version = "=0.4.45", features = ["serde"] }
lru = "=0.12.5"
flate2 = "=1.1.10"
serde = { version = "=1.0.229", features = ["derive"] }
serde_json = "=1.0.154"
toml = "=0.8.23"
dirs = "=5.0.1"
clap = { version = "=4.6.7", features = ["derive"] }
clap_complete = "=4.6.11"
colored = "2"
serde_yaml = "0.9"
tokio = { version = "=1.54.1", features = ["rt-multi-thread", "macros", "time", "sync"] }
reqwest = { version = "=0.12.28", default-features = false, features = ["json", "rustls-tls"] }
rusqlite = { version = "=0.31.0", features = ["bundled"] }
thiserror = "=1.0.69"
log = "=0.4.35"
comfy-table = "=7.2.2"
csv = "=1.4.0"
