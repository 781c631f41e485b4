[package]
name = "relayer_fees"
version = "0.1.0"
edition = "2021"
publish = false

[dependencies]
eyre = "0.6"
ibc-proto = { version = "*", default-features = false }
tokio = { version = "1", default-features = false, features = ["rt"] }
