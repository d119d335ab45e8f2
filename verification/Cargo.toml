[package]
name = "rpc_sessions"
version = "0.1.0"
edition = "2021"
publish = false

[dependencies]
tokio = { version = "1", features = ["macros", "rt-multi-thread", "sync", "time", "io-std", "io-util"] }
tokio-stream = "0.1"
tonic = "*"
tonic-prost = "*"
prost = "*"
