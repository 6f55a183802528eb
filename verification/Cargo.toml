[package]
name = "frame_processor"
version = "0.1.0"
edition = "2021"
publish = false

[dependencies]
anyhow = "1"
flutter_rust_bridge = "2"
image = { version = "0.25", default-features = false }
