[package]
name = "grapl_pipeline"
version = "0.1.0"
edition = "2021"
publish = false

[dependencies]
uuid = { version = "1", features = ["v4"] }
sha2 = "0.10"
hex = "0.4"
zstd = "0.13"
serde_json = "1"
chrono = "0.4"
prost = "0.13"
bytes = "1"
tonic = { version = "0.12", default-features = false }
tokio = { version = "1", features = ["time", "macros", "rt"] }
rusoto_core = { version = "0.48", default-features = false, features = ["rustls"] }
rusoto_credential = "0.48"
rusoto_s3 = { version = "0.48", default-features = false, features = ["rustls"] }
rusoto_sqs = { version = "0.48", default-features = false, features = ["rustls"] }
rusoto_dynamodb = { version = "0.48", default-features = false, features = ["rustls"] }
metrics = "0.24"
quanta = "0.12"
thiserror = "2"
