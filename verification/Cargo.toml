[package]
name = "sidecar"
version = "0.1.0"
edition = "2021"
publish = false

[dependencies]
dotenvy = "0.15"
log = "0.4"
tauri = { version = "2", default-features = false }
