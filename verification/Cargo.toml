[package]
name = "ferinth"
version = "2.0.0"
edition = "2021"
publish = false

[dependencies]
serde = { version = "=1.0.229", features = ["derive"] }
serde_json = "=1.0.151"
reqwest = { version = "=0.13.5", default-features = false, features = ["json"] }
url = { version = "=2.5.8", features = ["serde"] }
chrono = { version = "=0.4.45", features = ["serde"] }
bytes = "=1.12.1"

[dev-dependencies]
regex = "=1.13.1"
