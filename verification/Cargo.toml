[package]
name = "shendesk"
version = "0.1.0"
edition = "2021"
publish = false

[dependencies]
semver = "=1.0.28"
url = "=2.5.8"
serde = { version = "=1.0.229", features = ["derive"] }
serde_json = "=1.0.154"
base64 = "=0.22.1"
tempfile = "=3.27.0"
async-trait = "=0.1.92"
tokio = { version = "=1.54.1", features = ["rt-multi-thread", "sync", "time", "process", "fs", "io-util", "macros"] }
tracing = "=0.1.44"
moka = { version = "=0.12.16", features = ["sync"] }
notify = "=8.2.1"
image = { version = "0.25", default-features = false, features = ["jpeg", "png"] }
oxipng = { version = "9", default-features = false }
reqwest = { version = "0.12", default-features = false, features = ["json"] }
keyring = { version = "3", default-features = false }
sqlx = { version = "0.8", default-features = false, features = ["sqlite", "runtime-tokio"] }
tracing-subscriber = { version = "0.3", features = ["env-filter"] }
tracing-appender = "0.2"
