[package]
name = "formcore"
version = "0.1.0"
edition = "2021"
publish = false

[dependencies]
ring = "0.17"
data-encoding = "2"
rand = "0.8"
uuid = { version = "1", features = ["v4"] }
rocket = { version = "0.5", features = ["json"] }
rocket_db_pools = { version = "*", features = ["diesel_postgres"] }
rocket-multipart-form-data = "0.10"
diesel = { version = "*", features = ["postgres_backend", "chrono"] }
diesel-async = { version = "*", features = ["postgres"] }
serde = { version = "1", features = ["derive"] }
serde_json = "1"
chrono = { version = "0.4", features = ["serde"] }
tokio = { version = "1", features = ["rt", "rt-multi-thread", "macros"] }
aws-config = "1"
aws-sdk-s3 = "1"
