[package]
name = "better_sonar"
version = "0.1.0"
edition = "2021"
publish = false

[dependencies]
urlencoding = "2.1.3"
serde = { version = "1", features = ["derive"] }
serde_json = "1"
reqwest = { version = "0.12", default-features = false, features = ["json", "blocking", "rustls-tls"] }
tokio = { version = "1", features = ["time", "macros", "rt-multi-thread", "sync"] }
anyhow = "1"
thiserror = "2"
