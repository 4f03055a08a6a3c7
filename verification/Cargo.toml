[package]
name = "enterprise_pw_demo"
version = "0.1.0"
edition = "2021"
publish = false

[dependencies]
affinidi-tdk = { version = "*", default-features = false }
anyhow = "*"
axum = { version = "0.8", default-features = false, features = ["http1", "json", "tokio"] }
clap = { version = "4", default-features = false, features = ["std", "derive", "help", "usage", "error-context"] }
console = "*"
dialoguer = { version = "*", default-features = false }
reqwest = { version = "0.12", default-features = false, features = ["json"] }
serde = { version = "1", features = ["derive"] }
serde_json = "1"
tokio = { version = "1", features = ["macros", "rt-multi-thread", "io-std", "net", "sync"] }
tracing = "0.1"
tracing-subscriber = { version = "0.3", default-features = false, features = ["fmt", "std"] }
uuid = { version = "1", features = ["v4"] }
