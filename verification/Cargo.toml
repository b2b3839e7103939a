[package]
name = "backend_supervisor"
version = "0.1.0"
edition = "2021"
publish = false

[dependencies]
http = "=1.5.0"
reqwest = { version = "=0.12.28", default-features = false, features = ["blocking"] }
serde = { version = "=1.0.229", features = ["derive"] }
tauri = { version = "=2.12.5", default-features = false }
winapi = { version = "=0.3.9", features = ["winuser", "wingdi", "libloaderapi", "windef", "minwindef"] }
