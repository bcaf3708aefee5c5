[package]
name = "hotkey_toggle"
version = "0.1.0"
edition = "2021"
publish = false

[dependencies]
global-hotkey = "=0.8.0"
serde = { version = "=1.0.229", features = ["derive"] }
tauri = { version = "=2.12.5", default-features = false, features = ["tray-icon"] }
tauri-plugin-global-shortcut = "=2.4.1"
