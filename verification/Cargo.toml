[package]
name = "easy_async_opencl3"
version = "0.1.0"
edition = "2021"
publish = false

[dependencies]
cl3 = "*"
futures = "*"
tokio = { version = "*", features = ["sync", "rt", "rt-multi-thread", "macros"] }
