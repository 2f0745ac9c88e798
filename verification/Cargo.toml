[package]
name = "api_service"
version = "0.1.0"
edition = "2021"
publish = false

[dependencies]
anyhow = "1"
serde = { version = "1", features = ["derive"] }
thiserror = "1"
tokio = { version = "1", features = ["macros", "rt-multi-thread", "net", "io-util"] }
tracing = "0.1"
tracing-subscriber = "0.3"
