[package]
name = "rust-languagetool"
version = "0.1.0"
edition = "2021"
publish = false

[dependencies]
dirs = "5.0"
futures-util = "0.3"
hex = "0.4"
reqwest = { version = "0.12", default-features = false, features = ["rustls-tls", "stream"] }
serde = { version = "1", features = ["derive"] }
serde_json = "1"
sha2 = "0.10"
thiserror = "1"
tokio = { version = "1", features = ["fs", "io-util", "macros", "process", "rt-multi-thread", "sync", "time"] }
tracing = "0.1"
zip = { version = "2", default-features = false, features = ["deflate"] }
