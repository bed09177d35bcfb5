[package]
name = "ton_pool"
version = "0.1.0"
edition = "2021"
publish = false

[dependencies]
rand = "0.8"
serde = { version = "1", features = ["derive"] }
serde_json = "1"
tokio = { version = "1", features = ["sync", "rt", "time", "macros"] }
tokio-retry = "0.3"
log = "0.4"
async-trait = "0.1"
