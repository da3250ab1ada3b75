[package]
name = "sptmm_lib"
version = "0.1.0"
edition = "2021"
publish = false

[dependencies]
anyhow = "1"
bytes = "1"
chrono = { version = "=0.4.45", default-features = false, features = ["std", "clock", "serde"] }
clap = { version = "4", features = ["derive"] }
compress-tools = "=0.16.1"
directories-next = "2"
indicatif = "*"
octocrab = "=0.41.2"
reqwest = { version = "0.12", default-features = false, features = ["rustls-tls"] }
scraper = "=0.29.0"
serde = { version = "1", features = ["derive"] }
serde_json = "1"
sha256 = { version = "=1.6.0", default-features = false }
tokio = { version = "1", features = ["rt-multi-thread", "macros", "fs", "io-util", "time"] }
url = "=2.5.8"
versions = { version = "=8.0.1", features = ["serde"] }
walkdir = "2"
zip = { version = "=9.0.5", default-features = false, features = ["deflate"] }
