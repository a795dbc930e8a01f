[package]
name = "photon"
version = "0.1.0"
edition = "2021"
publish = false

[dependencies]
base64 = "0.13"
chrono = "0.4"
chrono-tz = "0.8"
zip = { version = "0.6", default-features = false, features = ["deflate"] }
reqwest = { version = "0.11", default-features = false, features = ["blocking", "json"] }
serde = { version = "1", features = ["derive"] }
serde_json = "1"
toml = "0.5"
rinfluxdb = "*"
