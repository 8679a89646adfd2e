[package]
name = "rust_backend"
version = "0.1.0"
edition = "2021"
publish = false

[dependencies]
bson = { version = "=3.1.0", features = ["chrono-0_4", "serde_with-3"] }
chrono = { version = "=0.4.45", features = ["serde"] }
env_logger = "=0.11.11"
log = "=0.4.34"
mongodb = { version = "=3.9.1", features = ["sync", "bson-3"] }
once_cell = "=1.21.4"
serde = { version = "=1.0.229", features = ["derive"] }
serde_with = "=3.24.0"
signal-hook = "=0.3.18"
thiserror = "=2.0.21"
ureq = { version = "=3.5.0", features = ["json"] }
