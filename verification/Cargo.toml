[package]
name = "u2"
version = "0.1.0"
edition = "2021"
publish = false

[dependencies]
base64 = "0.13"
bytes = "1"
chrono = { version = "0.4", default-features = false, features = ["clock", "std"] }
openssl = "0.10"
