[package]
name = "nasl_core"
version = "0.1.0"
edition = "2021"
publish = false

[dependencies]
anyhow = "*"
async-trait = "*"
russh = "*"
tokio = { version = "*", features = ["io-std", "io-util", "net"] }
