[package]
name = "stdiobus"
version = "0.1.0"
edition = "2021"
publish = false

[dependencies]
serde = { version = "1", features = ["derive"] }
serde_json = "1"
uuid = { version = "1", features = ["v4"] }
tokio = { version = "1", features = ["rt", "rt-multi-thread", "sync", "time", "process", "net", "io-util", "macros"] }
async-trait = "0.1"
tracing = "0.1"
thiserror = "1"
