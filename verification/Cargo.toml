[package]
name = "zeroclaw_composio"
version = "0.1.0"
edition = "2021"
publish = false

[dependencies]
anyhow = "1"
async-trait = "0.1"
axum = { version = "0.7", default-features = false, features = ["tokio", "http1", "query"] }
chrono = { version = "0.4", default-features = false, features = ["clock", "std"] }
md5 = "0.7"
parking_lot = "0.12"
reqwest = { version = "0.12", default-features = false, features = ["json"] }
serde = { version = "1", features = ["derive"] }
serde_json = "1"
tokio = { version = "1", features = ["rt", "rt-multi-thread", "macros", "sync", "time", "net", "fs"] }
tracing = "0.1"
urlencoding = "2"
uuid = { version = "1", features = ["v4"] }
