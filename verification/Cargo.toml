[package]
name = "autoshooter"
version = "0.1.0"
edition = "2021"
publish = false

[dependencies]
device_query = "*"
enigo = "*"
tokio = { version = "*", features = ["rt-multi-thread", "macros"] }
