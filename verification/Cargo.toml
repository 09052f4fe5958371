[package]
name = "rustls"
version = "0.1.0"
edition = "2021"
publish = false

[dependencies]
ring = "*"
rustls-pki-types = "*"
