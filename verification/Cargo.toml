[package]
name = "pemasak_infra"
version = "0.1.0"
edition = "2021"
publish = false

[dependencies]
data-encoding = "=2.11.1"
argon2 = "=0.5.3"
rand = "=0.8.8"
byte-unit = "=4.0.19"
procfile = { version = "=0.2.1", default-features = false }
flate2 = "=1.1.10"
strip-ansi-escapes = "=0.2.1"
badgen = "=0.1.0"
axum = { version = "=0.6.20", features = ["ws", "headers"] }
hyper = { version = "=0.14.32", features = ["client", "server", "http1", "tcp"] }
tokio = { version = "=1.54.1", features = ["macros", "rt-multi-thread", "process", "fs", "sync", "time", "io-util"] }
sqlx = { version = "=0.7.4", default-features = false, features = ["runtime-tokio", "postgres", "uuid", "chrono", "json"] }
bollard = "=0.15.0"
git2 = { version = "=0.18.3", default-features = false }
serde = { version = "=1.0.229", features = ["derive"] }
serde_json = "=1.0.154"
config = { version = "=0.13.4", default-features = false, features = ["yaml"] }
tracing = "=0.1.44"
tracing-subscriber = { version = "=0.3.23", features = ["env-filter"] }
uuid = "=1.29.0"
ulid = { version = "=1.2.1", features = ["uuid"] }
chrono = "=0.4.45"
anyhow = "=1.0.104"
futures-util = "=0.3.34"
tower-http = { version = "=0.4.4", features = ["cors", "fs", "trace", "limit"] }
reqwest = { version = "0.11", default-features = false, features = ["json", "rustls-tls"] }
