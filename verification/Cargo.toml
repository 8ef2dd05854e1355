[package]
name = "good_scanner"
version = "0.1.0"
edition = "2021"
publish = false

[dependencies]
regex = "1"
uuid = { version = "1", features = ["v4"] }
serde = { version = "1", features = ["derive"] }
serde_json = "1"
tiny_http = "0.12"
anyhow = "1"
log = "0.4"
