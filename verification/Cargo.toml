[package]
name = "reservation_metrics"
version = "0.1.0"
edition = "2021"
publish = false

[dependencies]
chrono = "0.4"
env_logger = "0.7"
failure = "0.1"
lambda_runtime = "0.2"
log = "0.4"
rusoto_ce = "0.42"
rusoto_cloudwatch = "0.42"
rusoto_core = "0.42"
serde = "1"
serde_derive = "1"
