[package]
name = "source_mirror"
version = "0.1.0"
edition = "2021"
publish = false

[dependencies]
libpulse-binding = "2"
tokio = { version = "1", default-features = false, features = ["sync"] }
tracing = "0.1"
