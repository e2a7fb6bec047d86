[package]
name = "songfeed"
version = "0.1.0"
edition = "2021"
publish = false

[dependencies]
axum = "*"
base64-url = "*"
chrono = "*"
form_urlencoded = "*"
reqwest = { version = "*", default-features = false, features = ["rustls-tls"] }
rss = "*"
serde_json = "*"
tokio = { version = "*", features = ["macros", "rt-multi-thread", "net"] }
tracing = "*"
tracing-subscriber = { version = "*", features = ["env-filter"] }
url = "*"
