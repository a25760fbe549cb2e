[package]
name = "deepl_proxy"
version = "0.1.0"
edition = "2021"
publish = false

[dependencies]
serde_json = "*"
serde = { version = "*", features = ["derive"] }
reqwest = { version = "*", default-features = false, features = ["json"] }
axum = "*"
tokio = { version = "*", features = ["macros", "rt-multi-thread", "net"] }
tower-http = { version = "*", features = ["fs", "cors"] }
tracing = "*"
tracing-subscriber = "*"
dotenvy = "*"
anyhow = "*"
