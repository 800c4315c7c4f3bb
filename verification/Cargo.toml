[package]
name = "opensovd"
version = "0.1.0"
edition = "2021"
publish = false

[dependencies]
async-trait = "0.1"
axum = "0.8"
axum-extra = "0.10"
futures-core = "0.3"
mdns-sd = "0.13"
schemars = "1"
serde = { version = "1", features = ["derive"] }
thiserror = "2"
tokio = { version = "1", features = ["sync", "rt"] }
tracing = "0.1"
