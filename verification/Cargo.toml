[package]
name = "rs_mongo_stream"
version = "0.3.1"
edition = "2021"
publish = false

[dependencies]
mongodb = "2.8"
tokio = { version = "1", features = ["full"] }
tokio-stream = "0.1"
