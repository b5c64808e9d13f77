[package]
name = "cdk_spark_payment_processor"
version = "0.1.0"
edition = "2021"
publish = false

[dependencies]
anyhow = "*"
async-trait = "*"
cdk-common = "*"
cdk-payment-processor = "*"
figment = { version = "*", features = ["toml"] }
futures-core = "*"
hex = "*"
home = "*"
redb = "*"
serde = { version = "*", features = ["derive"] }
serde_json = "*"
tokio = { version = "*", features = ["rt-multi-thread", "macros", "signal", "sync"] }
tokio-stream = "*"
tracing = "*"
tracing-subscriber = { version = "*", features = ["env-filter"] }
