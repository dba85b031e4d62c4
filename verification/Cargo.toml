[package]
name = "install_pipeline"
version = "0.1.0"
edition = "2021"
publish = false

[dependencies]
zip = { version = "0.6", default-features = false, features = ["deflate"] }
reqwest = { version = "0.11", features = ["stream"] }
futures-util = "0.3"
serde = { version = "1", features = ["derive"] }
winreg = "0.52"
