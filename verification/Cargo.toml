[package]
name = "poing"
version = "0.1.0"
edition = "2021"
publish = false

[dependencies]
dirs = "*"
hound = "*"
ndarray = "=0.17.2"
ort = { version = "=2.0.0-rc.13", default-features = false, features = ["std", "ndarray", "alternative-backend", "api-27"] }
rand = "0.8"
serde = { version = "*", features = ["derive"] }
serde_json = "*"
tokenizers = "=0.23.2"
