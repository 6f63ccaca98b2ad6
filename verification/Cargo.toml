[package]
name = "psbt_summary"
version = "0.1.0"
edition = "2021"
publish = false

[dependencies]
base64 = "0.13"
bitcoin = "0.28"
lambda_http = "*"
serde = { version = "1", features = ["derive"] }
serde_json = "1"
tokio = { version = "1", features = ["macros", "rt-multi-thread"] }
tracing = "0.1"
tracing-subscriber = "0.3"
