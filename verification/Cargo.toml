[package]
name = "cwrdd_make"
version = "0.1.0"
edition = "2021"
publish = false

[dependencies]
anyhow = "*"
chrono = "*"
clap = { version = "*", features = ["derive"] }
tokio = { version = "*", features = ["process", "rt-multi-thread"] }
toml = "*"
