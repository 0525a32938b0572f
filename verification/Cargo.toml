[package]
name = "cel_cxx"
version = "0.1.0"
edition = "2021"
publish = false

[dependencies]
itertools = "*"
futures = "*"
async-scoped = { version = "*", features = ["use-tokio", "use-async-std"] }
tokio = { version = "*", features = ["rt", "rt-multi-thread"] }
async-std = "*"
smol = "*"
