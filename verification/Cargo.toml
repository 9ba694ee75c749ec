[package]
name = "oneview_alerts"
version = "0.1.0"
edition = "2021"
publish = false

[dependencies]
http = "1"
reqwest = { version = "0.12", default-features = false, features = ["blocking", "native-tls"] }
serde = { version = "1", features = ["derive"] }
serde_json = "1"
