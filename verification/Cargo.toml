[package]
name = "space_router"
version = "0.1.0"
edition = "2021"
publish = false

[dependencies]
base64 = "0.22"
blake2b_simd = "1"
serde = { version = "1", features = ["derive"] }
serde_json = "1"
tokio = { version = "1", features = ["sync", "rt", "rt-multi-thread", "macros", "time"] }
futures = "0.3"
