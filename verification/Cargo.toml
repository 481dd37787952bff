[package]
name = "chat"
version = "0.1.0"
edition = "2021"
publish = false

[dependencies]
anyhow = "1"
argon2 = "0.5"
axum = { version = "0.7", features = ["http2", "multipart"] }
axum-extra = { version = "0.9", features = ["typed-header"] }
chrono = { version = "0.4", features = ["serde"] }
dashmap = "5"
futures = "0.3"
headers = "0.4"
hex = "0.4"
http = "1"
jsonwebtoken = "9"
serde = { version = "1", features = ["derive"] }
serde_json = "1"
serde_yaml = "0.9"
sha1 = "0.10"
sqlx = { version = "0.7", default-features = false, features = ["postgres", "runtime-tokio", "chrono", "macros"] }
tokio = { version = "1", features = ["rt-multi-thread", "macros", "net", "sync", "fs", "time"] }
tokio-stream = { version = "0.1", features = ["sync"] }
tower = "0.4"
tower-http = { version = "0.5", features = ["compression-br", "compression-gzip", "compression-deflate", "trace", "request-id"] }
tracing = "0.1"
tracing-subscriber = "0.3"
uuid = { version = "1", features = ["v7"] }
