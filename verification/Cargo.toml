[package]
name = "workc"
version = "0.1.0"
edition = "2021"
publish = false

[dependencies]
anyhow = "1"
camino = "1"
clap = { version = "4", features = ["derive"] }
nanoid = "0.4"
serde = { version = "1", features = ["derive"] }
serde_json = "1"
time = "0.3"
