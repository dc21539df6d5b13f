[package]
name = "linkdump"
version = "0.1.0"
edition = "2021"
publish = false

[dependencies]
futures = "*"
lychee-lib = { version = "=0.10.3", default-features = false }
tokio = { version = "*", features = ["rt", "macros"] }
tokio-stream = "*"
