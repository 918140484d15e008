[package]
name = "quickchart_rs"
version = "0.1.0"
edition = "2021"
publish = false

[dependencies]
serde_json = { version = "=1.0.151", features = ["float_roundtrip"] }
reqwest = { version = "=0.13.5", default-features = false }
thiserror = "=2.0.21"

[dev-dependencies]
url = "=2.5.8"
