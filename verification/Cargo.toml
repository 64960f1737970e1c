[package]
name = "axum-static-s3"
version = "0.1.0"
edition = "2021"
publish = false

[dependencies]
aws-config = { version = "1", default-features = false }
aws-sdk-s3 = { version = "1", default-features = false, features = ["rt-tokio"] }
axum = "0.8"
futures-core = "0.3"
pin-project = "1"
tokio = "1"
tower-service = "0.3"
