[package]
name = "asyncapiv3"
version = "0.1.0"
edition = "2021"
publish = false

[dependencies]
log = "0.4"
schemars = { version = "0.8", default-features = false }
serde = { version = "1", features = ["derive"] }
serde_json = "1"
thiserror = "1"
