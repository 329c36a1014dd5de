[package]
name = "lightning_kit"
version = "0.1.0"
edition = "2021"
publish = false

[dependencies]
bitcoin = { version = "=0.32.102", features = ["serde"] }
esplora-client = { version = "=0.11.0", default-features = false, features = ["blocking"] }
serde = { version = "=1.0.229", features = ["derive"] }
windows-sys = { version = "=0.48.0", features = ["Win32_Storage_FileSystem", "Win32_Foundation"] }

[dev-dependencies]
serde_json = "=1.0.154"
