[package]
name = "hospital_management_system"
version = "0.1.0"
edition = "2021"
publish = false

[dependencies]
regex = "=1.13.1"
chrono = { version = "=0.4.45", features = ["serde"] }
config = { version = "=0.15.27", default-features = false, features = ["yaml"] }
serde = { version = "=1.0.229", features = ["derive"] }
serde_json = "=1.0.154"
tokio = { version = "=1.54.1", features = ["full"] }
axum = { version = "=0.8.9", features = ["multipart"] }
tower = "=0.5.3"
tower-http = { version = "0.6", features = ["limit"] }
uuid = { version = "=1.29.0", features = ["v4"] }
bb8-redis = "=0.26.0"
sea-orm = { version = "=1.1.20", default-features = false, features = ["sqlx-postgres", "runtime-tokio-rustls", "macros", "with-chrono"] }
aws-sdk-s3 = "1"
