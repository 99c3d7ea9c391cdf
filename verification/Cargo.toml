[package]
name = "kiosk_rotation"
version = "0.1.0"
edition = "2021"
publish = false

[dependencies]
url = "2"
log = "0.4"
tauri = { version = "2", default-features = false, features = ["wry"] }
