[package]
name = "imgup"
version = "0.1.0"
edition = "2021"
publish = false

[dependencies]
json = "*"
reqwest = { version = "*", default-features = false, features = ["multipart"] }
tokio = { version = "*", features = ["macros", "rt-multi-thread"] }
clap = { version = "*", features = ["derive"] }
