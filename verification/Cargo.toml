[package]
name = "ssh_web_ca"
version = "0.1.0"
edition = "2021"
publish = false

[dependencies]
ssh-key = { version = "*", features = ["ed25519", "serde"] }
serde_json = "*"
axum = "*"
axum-login = "*"
dotenv = "*"
openssl = "*"
reqwest = { version = "*", default-features = false }
samael = "*"
serde = { version = "*", features = ["derive"] }
serde_yaml = "*"
sqlx = { version = "*", default-features = false, features = ["sqlite", "runtime-tokio"] }
tokio = { version = "*", features = ["rt-multi-thread", "net", "macros"] }
tracing = "*"
tracing-subscriber = "*"
