[package]
name = "issuer_core"
version = "0.1.0"
edition = "2021"
publish = false

[dependencies]
jsonwebtoken = { version = "=11.1.0", features = ["rust_crypto"] }
hex = "=0.4.3"
serde = { version = "*", features = ["derive"] }
serde_json = "=1.0.151"
sqlx = { version = "=0.9.0", default-features = false, features = ["runtime-tokio", "sqlite"] }
tokio = { version = "=1.53.2", features = ["rt", "rt-multi-thread", "macros", "signal", "net"] }
axum = "=0.8.9"
axum-extra = { version = "=0.12.6", features = ["typed-header"] }
axum-jrpc = "=0.9.0"
tower-http = { version = "*", features = ["cors"] }
clap = { version = "*", features = ["derive"] }
url = "*"
