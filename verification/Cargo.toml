[package]
name = "rustls"
version = "0.1.0"
edition = "2021"
publish = false

[dependencies]
rustls-pki-types = { version = "1", features = ["alloc", "std"] }
rustls-webpki = { version = "0.103", default-features = false, features = ["alloc", "std"] }
