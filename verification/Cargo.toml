[package]
name = "isolator"
version = "0.1.0"
edition = "2021"
publish = false

[dependencies]
async-stream = "0.3"
base64 = "0.13"
deno_core = "0.98"
futures = "0.3"
futures-core = "0.3"
futures-util = "0.3"
prost = "0.8"
serde = { version = "1", features = ["derive"] }
threadpool = "1"
tokio = { version = "1", features = ["sync", "rt", "time", "macros"] }
tonic = "0.5"
uuid = { version = "0.8", features = ["v4"] }
