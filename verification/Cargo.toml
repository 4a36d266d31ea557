[package]
name = "monoio_criterion"
version = "0.1.0"
edition = "2021"
publish = false

[dependencies]
criterion = { version = "*", default-features = false, features = ["async"] }
monoio = { version = "*" }
