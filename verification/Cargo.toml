[package]
name = "downloader"
version = "0.1.0"
edition = "2021"
publish = false

[dependencies]
url = "2"
uuid = { version = "1", features = ["v4"] }
sanitize-filename = "0.5"
new_mime_guess = "4"
reqwest = { version = "0.11", default-features = false, features = ["rustls-tls", "json"] }
tokio = { version = "1", features = ["rt-multi-thread", "sync", "time", "macros"] }
serde = { version = "1", features = ["derive"] }
serde_json = "1"
rsa = "0.9"
rand = "0.8"
keyring = "2"
dirs-next = "2"
tempdir = "0.3"
