[package]
name = "arctic"
version = "0.1.0"
edition = "2021"
publish = false

[dependencies]
async-trait = "*"
btleplug = "*"
futures = "*"
tokio = { version = "*", features = ["time"] }
uuid = "*"
