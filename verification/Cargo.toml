[package]
name = "telegram_bot_oxidebot"
version = "0.1.4"
edition = "2021"
publish = false

[dependencies]
anyhow = "1"
async-trait = "0.1"
base64 = "0.22"
chrono = "0.4"
hmac = "*"
hyper = "1"
mime_guess = "2"
oxidebot = "*"
reqwest = { version = "0.13", default-features = false, features = ["json", "multipart", "stream", "rustls"] }
serde = { version = "1", features = ["derive"] }
serde_json = "1"
sha2 = "*"
tokio = { version = "1", features = ["full"] }
tracing = "0.1"
url = "2"
webpki-root-certs = "1"
