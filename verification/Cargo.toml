[package]
name = "wallet_bridge"
version = "0.1.0"
edition = "2021"
publish = false

[dependencies]
once_cell = "1"
pyo3 = { version = "0.23", default-features = false, features = ["auto-initialize"] }
serde_json = "1"
tauri = { version = "2", default-features = false }
tauri-plugin-deep-link = { version = "2", default-features = false }
tokio = { version = "1", default-features = false, features = ["sync"] }
