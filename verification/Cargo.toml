[package]
name = "workspace_panes"
version = "0.1.0"
edition = "2021"
publish = false

[dependencies]
once_cell = "1"
serde_json = "1"
tauri = { version = "2", default-features = false, features = ["wry", "unstable"] }
url = "2"
