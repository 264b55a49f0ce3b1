[package]
name = "artifact_relay"
version = "0.1.0"
edition = "2021"
publish = false

[dependencies]
chrono = { version = "0.4", features = ["serde"] }
crc32fast = "1"
md5 = "0.7"
url = "2"
serde = { version = "1", features = ["derive"] }
thiserror = "1"
tracing = "0.1"
prometheus = "0.13"
diesel = { version = "1.4", features = ["chrono"] }
tokio = { version = "1", features = ["fs", "io-util", "rt"] }
tokio-util = { version = "0.7", features = ["codec"] }
reqwest = { version = "0.11", default-features = false, features = ["rustls-tls", "stream", "json"] }
octocrab = { version = "0.17", default-features = false, features = ["rustls"] }
