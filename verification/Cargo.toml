[package]
name = "directive_forwarder"
version = "0.1.0"
edition = "2021"
publish = false

[dependencies]
serde_json = "1"
lambda_runtime = "*"
reqwest = { version = "0.12", default-features = false, features = ["json", "rustls-tls"] }
tokio = { version = "1", features = ["macros", "rt-multi-thread"] }
