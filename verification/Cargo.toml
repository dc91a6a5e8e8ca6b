[package]
name = "podway_daemon"
version = "0.1.0"
edition = "2021"
publish = false

[dependencies]
nix = { version = "*", features = ["fs", "user"] }
serde = { version = "1", features = ["derive"] }
serde_json = "1"
sha2 = "0.10"
