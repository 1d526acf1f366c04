[package]
name = "storage_impl"
version = "0.1.0"
edition = "2021"
publish = false

[dependencies]
async-trait = "0.1"
error-stack = "0.4"
tokio = { version = "1", default-features = false, features = ["sync"] }
