[package]
name = "pool_bridge"
version = "0.1.0"
edition = "2021"
publish = false

[dependencies]
futures = "0.1"
r2d2 = "0.8"
tokio-executor = "0.1"
tokio-threadpool = "0.1"
