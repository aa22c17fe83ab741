[package]
name = "voxov_cli"
version = "0.1.0"
edition = "2021"
publish = false

[dependencies]
chrono = { version = "0.4", default-features = false, features = ["clock"] }
reqwest = { version = "0.11", default-features = false, features = ["blocking"] }
