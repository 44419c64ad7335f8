[package]
name = "http3_rs"
version = "0.1.0"
edition = "2021"
publish = false

[dependencies]
fastrand = "2"
bytes = "1"
futures-util = "0.3"
tokio = { version = "1", features = ["sync"] }
quinn = { version = "0.11", default-features = false, features = ["runtime-tokio"] }
