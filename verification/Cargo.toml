[package]
name = "rust_functions"
version = "0.1.0"
edition = "2021"
publish = false

[dependencies]
svix-ksuid = "*"
aws-config = "*"
aws-sdk-dynamodb = "*"
lambda_runtime = "*"
serde = { version = "*", features = ["derive"] }
serde_json = "*"
tokio = { version = "*", features = ["macros", "rt-multi-thread"] }
tracing = "*"
tracing-subscriber = { version = "*", features = ["json"] }

[dev-dependencies]
time = "*"
