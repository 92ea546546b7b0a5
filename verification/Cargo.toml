[package]
name = "term_core"
version = "0.1.0"
edition = "2021"
publish = false

[dependencies]
notify = { version = "*", default-features = false }
portable-pty = "*"
serde = { version = "1", features = ["derive"] }
serde_json = "1"
sysinfo = { version = "*", default-features = false, features = ["system"] }
tauri = { version = "2", default-features = false }
uuid = { version = "1", features = ["v4"] }
walkdir = "2"
