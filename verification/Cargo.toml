[package]
name = "qdrant_offline_android"
version = "0.1.0"
edition = "2021"
publish = false

[dependencies]
serde_json = "1"
jni = "0.21"
once_cell = "1"
tokio = { version = "1", features = ["rt-multi-thread"] }
