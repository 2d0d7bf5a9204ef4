[package]
name = "convert_server"
version = "0.1.0"
edition = "2021"
publish = false

[dependencies]
uuid = { version = "*", features = ["v4"] }
serde = { version = "*", features = ["derive"] }
serde_json = "*"
tokio = { version = "*", features = ["macros", "rt-multi-thread", "fs", "io-util", "process"] }
lambda_http = "*"
lambda_runtime = "*"
aws-config = "*"
aws-sdk-s3 = "*"
dotenvy = "*"
tracing = "*"
