[package]
name = "tensorlake_cloud_sdk"
version = "0.1.0"
edition = "2021"
publish = false

[dependencies]
serde_json = "1"
serde = { version = "1", features = ["derive"] }
reqwest = { version = "0.12", default-features = false, features = ["json", "multipart", "stream"] }
futures = "0.3"
bytes = "1"
thiserror = "2"
tokio = { version = "1", default-features = false, features = ["time"] }
