[package]
name = "messages_api"
version = "0.1.0"
edition = "2021"
publish = false

[dependencies]
serde_json = "*"
uuid = { version = "*", features = ["v4"] }
aws-config = "*"
aws-sdk-dynamodb = "*"
aws_lambda_events = "*"
http = "*"
lambda_runtime = "*"
tokio = { version = "*", features = ["macros", "rt-multi-thread"] }
