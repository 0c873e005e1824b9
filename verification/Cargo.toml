[package]
name = "corner_widget"
version = "0.1.0"
edition = "2021"
publish = false

[dependencies]
tauri = { version = "2", default-features = false }
tauri-plugin-autostart = "2"
tauri-plugin-window-state = "2"
