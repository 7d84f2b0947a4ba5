[package]
name = "isuumo_core"
version = "0.1.0"
edition = "2021"
publish = false

[dependencies]
mysql = { version = "=28.0.3", default-features = false, features = ["minimal-rust"] }
serde = { version = "=1.0.229", features = ["derive"] }
serde_json = "=1.0.151"
csv = "=1.4.0"
