[package]
name = "iceberg_datafusion"
version = "0.1.0"
edition = "2021"
publish = false

[dependencies]
async-trait = "0.1"
dashmap = "6"
datafusion = { version = "*", default-features = false }
futures = "0.3"
tokio = { version = "1", features = ["rt", "rt-multi-thread", "macros"] }
uuid = { version = "1", features = ["v4"] }
