[package]
name = "transglass"
version = "0.1.0"
edition = "2021"
publish = false

[dependencies]
dashmap = "6"
serde = { version = "1", features = ["derive"] }
serde_json = "1"
lazy_static = "1"
raw-window-handle = "0.6"
eframe = { version = "0.29", default-features = false, features = ["glow", "default_fonts", "x11"] }
image = { version = "0.25", default-features = false, features = ["png"] }
self_update = { version = "0.41", default-features = false }
