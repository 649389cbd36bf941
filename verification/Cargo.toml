[package]
name = "cosmic_ai_panel"
version = "0.1.0"
edition = "2021"
publish = false

[dependencies]
serde = { version = "1", features = ["derive"] }
serde_json = "1"
reqwest = { version = "0.12", default-features = false, features = ["json", "stream", "rustls-tls"] }
tokio = { version = "1", features = ["rt", "macros", "sync", "time"] }
futures-util = "0.3"
keyring = "3"
dirs = "6"
