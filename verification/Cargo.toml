[package]
name = "fhe"
version = "0.1.0"
edition = "2021"
publish = false

[dependencies]
serde = "=1.0.229"
thiserror = "=1.0.69"
