[package]
name = "shard_ingest"
version = "0.1.0"
edition = "2021"
publish = false

[dependencies]
flate2 = "*"
serde_json = "*"
redis = { version = "*", features = ["cluster"] }
aws-config = "*"
aws-sdk-s3 = "*"
tokio = { version = "*", features = ["rt-multi-thread"] }
structopt = "*"
log = "*"
env_logger = "*"
