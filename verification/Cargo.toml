[package]
name = "key_extractor"
version = "0.1.0"
edition = "2021"
publish = false

[dependencies]
anyhow = "1"
clap = { version = "4", features = ["derive"] }
futures-executor = "0.3"
hex = "0.4"
matrix-sdk-crypto = "0.6"
matrix-sdk-sled = { version = "0.2", features = ["crypto-store"] }
matrix-sdk-store-encryption = "0.2"
serde = { version = "1", features = ["derive"] }
serde_json = "1"
sled = "0.34"
tokio = { version = "1", features = ["rt-multi-thread", "macros", "sync"] }
tracing = "0.1"
tracing-subscriber = "0.3"

[dev-dependencies]
vodozemac = "0.3"
