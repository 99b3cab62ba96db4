[package]
name = "identity"
version = "0.1.0"
edition = "2021"
publish = false

[dependencies]
moka = { version = "=0.12.16", features = ["sync"] }
bytes = "=1.12.1"
time = "=0.3.55"
celes = "=2.8.2"
base64 = "=0.22.1"
sha1 = "=0.10.7"
sha2 = "=0.10.9"
urlencoding = "=2.1.3"
uuid = { version = "=1.29.0", features = ["v4"] }
serde = { version = "=1.0.229", features = ["derive"] }
serde_json = "=1.0.154"
axum = { version = "=0.8.9", features = ["multipart"] }
axum-extra = { version = "=0.12.6", features = ["erased-json"] }
tokio = { version = "=1.54.1", features = ["rt-multi-thread", "macros", "net", "signal", "sync"] }
reqwest = { version = "=0.12.28", default-features = false, features = ["json", "rustls-tls"] }
sqlx = { version = "=0.8.6", default-features = false, features = ["postgres", "runtime-tokio", "tls-rustls", "uuid", "time"] }
lettre = { version = "=0.11.23", default-features = false, features = ["builder", "smtp-transport", "tokio1", "tokio1-rustls-tls"] }
tracing = "=0.1.44"
tracing-subscriber = "=0.3.23"
dotenv = "=0.15.0"
thiserror = "=2.0.21"
