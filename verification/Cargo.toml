[package]
name = "copr_resource"
version = "0.1.0"
edition = "2021"
publish = false

[dependencies]
regex = "1"
rust-crypto = "0.2"
serde = { version = "1", features = ["derive"] }
serde_json = "1"
walkdir = "2"
hyper = "0.10"
hyper-native-tls = "0.3"
