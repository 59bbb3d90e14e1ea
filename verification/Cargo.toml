[package]
name = "vulkan_slang_renderer"
version = "0.1.0"
edition = "2021"
publish = false

[dependencies]
heck = "0.5"
serde = { version = "1", features = ["derive"] }
serde_json = "1"
