[package]
name = "tray_controller"
version = "0.1.0"
edition = "2021"
publish = false

[dependencies]
tauri = { version = "2", default-features = false, features = ["tray-icon", "image-png"] }
tracing = "0.1"
