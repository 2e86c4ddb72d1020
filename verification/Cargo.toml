[package]
name = "chatiplex"
version = "0.1.0"
edition = "2021"
publish = false

[dependencies]
askama = "*"
axum = "*"
serde = { version = "*", features = ["derive"] }
tokio = { version = "*", features = ["macros", "net", "rt-multi-thread", "sync"] }
tower-http = { version = "*", features = ["fs", "trace"] }
tracing = "*"
tracing-subscriber = "*"
