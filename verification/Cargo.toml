[package]
name = "csv_codec"
version = "0.1.0"
edition = "2021"
publish = false

[dependencies]
bytes = "1"
chrono = { version = "0.4", default-features = false, features = ["std"] }
csv = "1"
tokio-util = { version = "0.7", default-features = false, features = ["codec"] }
