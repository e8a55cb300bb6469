[package]
name = "claudima"
version = "0.1.0"
edition = "2021"
rust-version = "1.95"
publish = false

[dependencies]
base64 = "=0.22.1"
chrono = "=0.4.45"
cron = "=0.17.0"
regex = "=1.13.1"
reqwest = { version = "=0.12.28", features = ["json"] }
rusqlite = { version = "=0.41.0", features = ["bundled"] }
serde = { version = "=1.0.229", features = ["derive"] }
serde_json = "=1.0.154"
# teloxide needs takecell, and takecell 0.1.2 asks for a newer compiler than
# the rust-version above: it is held at 0.1.1 so that teloxide builds.
takecell = "=0.1.1"
teloxide = "=0.17.0"
tokio = { version = "=1.54.1", features = ["full"] }
tracing = "=0.1.44"
tracing-appender = "=0.2.5"
tracing-subscriber = { version = "=0.3.23", features = ["env-filter"] }
whisper-rs = "=0.16.0"
urlencoding = "=2.1.3"
zip = { version = "=9.1.0", default-features = false, features = ["deflate"] }
