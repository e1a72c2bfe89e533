[package]
name = "booru_fetch"
version = "0.1.0"
edition = "2021"
publish = false

[dependencies]
anyhow = "*"
clap = { version = "*", features = ["derive"] }
dotenvy = "*"
indicatif = { version = "*", features = ["rayon"] }
rayon = "*"
reqwest = { version = "*", default-features = false, features = ["blocking", "rustls-tls"] }
scraper = "*"
serde = { version = "*", features = ["derive"] }
serde_json = "*"
urlencoding = "*"
