[package]
name = "poca"
version = "0.1.0"
edition = "2021"
publish = false

[dependencies]
dyn-clone = "1"
futures-util = "0.3"
parking_lot = "0.12"
proc-macro2 = "1"
quote = "1"
serde = { version = "1", features = ["derive"] }
serde_json = "1"
serde_repr = "0.1"
tokio = { version = "1", features = ["full"] }
tokio-stream = { version = "0.1", features = ["sync"] }
warp = "0.3"
web-view = "0.7"
