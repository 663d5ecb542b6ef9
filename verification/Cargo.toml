[package]
name = "exalta_auth"
version = "0.1.0"
edition = "2021"
publish = false

[dependencies]
eframe = "0.18"
keyring = "1"
quick-xml = { version = "*", features = ["serialize"] }
reqwest = { version = "0.11", default-features = false, features = ["rustls-tls"] }
serde = { version = "1", features = ["derive"] }
serde_json = "1"
tokio = { version = "1", features = ["rt-multi-thread", "sync"] }
