[package]
name = "vldb"
version = "0.1.0"
edition = "2021"
publish = false

[dependencies]
serde = { version = "=1.0.229", features = ["derive"] }
serde_json = "=1.0.154"
sha2 = "=0.10.9"
anyhow = "=1.0.104"
fs4 = { version = "=0.13.1", features = ["sync"] }
chrono = "=0.4.45"
flate2 = "=1.1.10"
tar = "=0.4.46"
zip = { version = "=2.6.1", default-features = false, features = ["deflate"] }
ratatui = "0.29"
crossterm = "0.28"
tempfile = "3"
reqwest = { version = "0.12", default-features = false, features = ["blocking", "json", "rustls-tls"] }
