[package]
name = "sigil_plugin_sdk"
version = "0.1.0"
edition = "2021"
publish = false

[dependencies]
serde = { version = "1", features = ["derive"] }
semver = "1"

[dev-dependencies]
serde_json = "1"
