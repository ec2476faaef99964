[package]
name = "rdrscrape"
version = "0.1.0"
edition = "2021"
publish = false

[dependencies]
reqwest = { version = "=0.12.28", default-features = false, features = ["blocking", "cookies", "charset", "default-tls"] }
scraper = "=0.29.0"
serde = { version = "=1.0.229", features = ["derive"] }
serde_json = "=1.0.154"
thiserror = "=1.0.69"
clap = { version = "=4.6.7", features = ["derive"] }
toml = "=0.8.23"
dirs = "=5.0.1"
indicatif = "=0.17.11"
html2md = "=0.2.17"
zip = { version = "=2.6.1", default-features = false, features = ["deflate"] }
