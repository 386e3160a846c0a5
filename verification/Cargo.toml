[package]
name = "subvt"
version = "0.1.0"
edition = "2021"
publish = false

[dependencies]
bus = "*"
chrono = "*"
hex = "*"
redis = "*"
serde = { version = "*", features = ["derive"] }
serde_json = "*"

[dev-dependencies]
parity-scale-codec = "*"
