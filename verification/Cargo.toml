[package]
name = "mpvipc"
version = "0.1.0"
edition = "2021"
publish = false

[dependencies]
serde_json = "1"
serde = { version = "1", features = ["derive"] }
tokio = { version = "1", features = ["sync", "macros", "net", "rt", "rt-multi-thread", "io-util", "time"] }
tokio-util = { version = "0.7", features = ["codec"] }
tokio-stream = { version = "0.1", features = ["sync"] }
futures = "0.3"
log = "0.4"
thiserror = "1"
