[package]
name = "vulpix"
version = "0.1.0"
edition = "2021"
publish = false

[dependencies]
anyhow = "1"
async-trait = "0.1"
aws-config = "0.55"
aws-sdk-rekognition = "0.28"
aws-sdk-s3 = "0.28"
axum = "0.6"
config = "0.13"
magick_rust = "0.19"
md5 = "0.7"
sentry = { version = "0.31", default-features = false }
serde = { version = "1", features = ["derive"] }
serde_json = "1"
thiserror = "1"
tokio = { version = "1", features = ["full"] }
tower-http = { version = "0.4", features = ["trace"] }
tracing = "0.1"
tracing-subscriber = { version = "0.3", features = ["json"] }
