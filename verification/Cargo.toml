[package]
name = "spider_worker"
version = "0.1.0"
edition = "2021"
publish = false

[dependencies]
anyhow = "1"
hostname = "*"
reqwest = { version = "0.12", default-features = false, features = ["json", "rustls-tls", "http2"] }
scraper = "*"
serde = { version = "1", features = ["derive"] }
sha2 = "0.10"
tokio = { version = "1", features = ["rt-multi-thread", "macros", "time"] }
urlencoding = "2"
