[package]
name = "lyte_mastering"
version = "0.1.0"
edition = "2021"
publish = false

[dependencies]
serde = { version = "1", features = ["derive"] }
tauri = { version = "2", default-features = false }
tauri-plugin-dialog = "2"
tempfile = "3"
dunce = "1"
