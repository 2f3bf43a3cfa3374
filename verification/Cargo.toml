[package]
name = "backend_supervisor"
version = "0.1.0"
edition = "2021"
publish = false

[dependencies]
log = "=0.4.34"
reqwest = { version = "=0.12.28", default-features = false, features = ["blocking"] }
tauri = { version = "=2.12.5", default-features = false, features = ["wry"] }
