[package]
name = "shortcut_dispatcher"
version = "0.1.0"
edition = "2021"
publish = false

[dependencies]
tauri = { version = "2", default-features = false, features = ["tray-icon"] }
tauri-plugin-global-shortcut = { version = "2", default-features = false }
