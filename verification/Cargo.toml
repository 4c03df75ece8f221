[package]
name = "rust_download_subtitles"
version = "0.1.0"
edition = "2021"
publish = false

[dependencies]
anyhow = "1"
lazy_format = "*"
reqwest = { version = "0.11", default-features = false, features = ["json", "rustls-tls"] }
ron = "0.8"
serde = { version = "1", features = ["derive"] }
serde_derive = "1"
serde_json = "1"
tokio = { version = "1", features = ["full"] }
