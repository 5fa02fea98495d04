[package]
name = "kindle-pult"
version = "0.1.0"
edition = "2021"
publish = false

[dependencies]
url = "2"
soup = "0.5"
image = "0.24"
epub-builder = "0.4"
reqwest = { version = "0.11", features = ["blocking"] }
serde = { version = "1", features = ["derive"] }
serde_json = "1"
tempfile = "3"
