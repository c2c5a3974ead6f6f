[package]
name = "barter"
version = "0.1.0"
edition = "2021"
publish = false

[dependencies]
barter-data = "0.2.11"
barter-integration = "0.2.4"
chrono = "=0.4.45"
serde = { version = "=1.0.229", features = ["derive"] }
thiserror = "=1.0.69"
tokio = { version = "=1.54.1", features = ["sync"] }
