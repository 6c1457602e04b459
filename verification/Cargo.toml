[package]
name = "agency"
version = "0.1.0"
edition = "2021"
publish = false

[dependencies]
async-trait = "0.1"
dyn-clone = "1"
futures-util = { version = "0.3", default-features = false, features = ["std"] }
tokio = { version = "1", features = ["macros", "rt", "rt-multi-thread", "sync", "time"] }
tokio-stream = "0.1"
uuid = { version = "1", features = ["v4"] }
