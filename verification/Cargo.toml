[package]
name = "generic-session-types"
version = "0.1.1"
edition = "2021"
publish = false

[dependencies]
serde = "1"
serde_json = "1"
thiserror = "1"
tokio = { version = "1", features = ["sync"] }
