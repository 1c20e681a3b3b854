[package]
name = "manifest_core"
version = "0.1.0"
edition = "2021"
publish = false

[dependencies]
semver = "1"
url = "2"
toml = "0.5"
cargo-platform = "0.1"
serde = { version = "1", features = ["derive"] }
