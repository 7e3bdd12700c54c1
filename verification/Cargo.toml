[package]
name = "parquet_object_writer"
version = "0.1.0"
edition = "2021"
publish = false

[dependencies]
bytes = "*"
futures = "*"
object_store = "*"
tokio = { version = "*", features = ["io-util"] }
