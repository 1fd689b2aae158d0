[package]
name = "cert_check"
version = "0.1.0"
edition = "2021"
publish = false

[dependencies]
chrono = "0.4"
colored = "*"
openssl = "0.10"
url = "2"
