[package]
name = "bargozin"
version = "0.1.0"
edition = "2021"
publish = false

[dependencies]
url = "*"
reqwest = { version = "*", default-features = false, features = ["rustls-tls", "stream"] }
tokio = { version = "*", default-features = false, features = ["rt-multi-thread", "macros", "time"] }
trust-dns-resolver = "*"
futures-util = { version = "*", default-features = false }
serde = { version = "*", features = ["derive"] }
anyhow = "*"
