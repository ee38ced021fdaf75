[package]
name = "syncnote"
version = "0.1.0"
edition = "2021"
publish = false

[dependencies]
pulldown-cmark = "=0.13.6"
argon2 = "=0.5.3"
rand = "=0.8.8"
serde = { version = "=1.0.229", features = ["derive"] }
serde_json = "=1.0.154"
tokio = { version = "=1.54.1", features = ["macros", "rt-multi-thread", "net", "fs", "sync"] }
axum = { version = "=0.8.9", features = ["ws", "multipart"] }
futures-util = "=0.3.34"
sqlx = { version = "=0.8.6", default-features = false, features = ["sqlite", "runtime-tokio", "macros"] }
tower-sessions = "=0.14.0"
tower-sessions-sqlx-store = { version = "=0.15.0", features = ["sqlite"] }
toml = "=0.8.23"
tracing = "=0.1.44"
tracing-subscriber = { version = "=0.3.23", features = ["env-filter"] }
dotenvy = "=0.15.7"
url = "=2.5.8"
tower-http = { version = "=0.6.11", features = ["compression-gzip", "trace"] }
lettre = { version = "=0.11.23", default-features = false, features = ["builder", "smtp-transport", "tokio1", "tokio1-rustls-tls"] }
webauthn-rs = { version = "0.5", features = ["danger-allow-state-serialisation", "conditional-ui"] }
