[package]
name = "language_model"
version = "0.1.0"
edition = "2021"
publish = false

[dependencies]
anyhow = "1.0"
futures = "0.3"
http = "1"
parking_lot = "0.12"
schemars = "1.0"
serde = { version = "1.0", features = ["derive", "rc"] }
serde_json = "1.0"
thiserror = "2.0"
zed_llm_client = "0.8"
