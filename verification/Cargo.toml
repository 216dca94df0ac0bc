[package]
name = "contact_manager"
version = "0.1.0"
edition = "2021"
publish = false

[dependencies]
aws-config = "*"
aws-sdk-account = "*"
aws-sdk-organizations = "*"
aws-sdk-s3 = "*"
aws-sdk-sts = "*"
chrono = "*"
colored = "*"
console = "*"
dialoguer = "*"
env_logger = "*"
log = "*"
serde_json = "*"
tokio = { version = "*", features = ["macros", "rt-multi-thread", "time"] }
