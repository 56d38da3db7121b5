[package]
name = "goni_kernel"
version = "0.1.0"
edition = "2021"
publish = false

[dependencies]
anyhow = "1"
arrow = { version = "54", default-features = false }
arrow-array = "54"
arrow-schema = "54"
async-trait = "0.1"
axum = "0.6"
cap-std = "3"
chrono = "0.4"
clap = { version = "4", features = ["derive"] }
futures-core = "0.3"
futures-util = "0.3"
hex = "0.4"
reqwest = { version = "0.11", default-features = false, features = ["json", "stream"] }
serde = { version = "1", features = ["derive"] }
serde_json = "1"
serde_yaml = "0.9"
sha2 = "0.10"
thiserror = "1"
tokio = { version = "1", features = ["full"] }
tower-http = { version = "0.4", features = ["trace"] }
uuid = { version = "1", features = ["v4", "v5", "serde"] }
