[package]
name = "actix-interop"
version = "0.3.0"
edition = "2021"
publish = false

[dependencies]
actix = "0.11"
futures = "0.3"
pin-project = "1"
scoped-tls-hkt = "0.1"
