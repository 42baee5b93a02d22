[package]
name = "persist"
version = "0.1.0"
edition = "2021"
publish = false

[dependencies]
serde = "*"
serde_json = { version = "*", features = ["preserve_order"] }
serde_yaml = "*"
toml = "*"
ron = "*"
tokio = { version = "*", default-features = false, features = ["fs", "io-util", "rt"] }
