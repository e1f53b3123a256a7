[package]
name = "biometric"
version = "0.1.0"
edition = "2021"
publish = false

[dependencies]
swift-bridge = "0.1"
thiserror = "2"
tokio = { version = "1", default-features = false, features = ["sync"] }
