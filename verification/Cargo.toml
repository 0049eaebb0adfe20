[package]
name = "serial_link"
version = "0.1.0"
edition = "2021"
publish = false

[dependencies]
rand = "0.8"
serde = { version = "1", features = ["derive"] }
serialport = { version = "4", default-features = false }
tauri = { version = "2", default-features = false }
tokio = { version = "1", default-features = false, features = ["time"] }
