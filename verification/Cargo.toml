[package]
name = "alphaforge"
version = "0.1.0"
edition = "2021"
publish = false

[dependencies]
rustc_apfloat = "*"
anyhow = "*"
clap = { version = "*", features = ["derive"] }
ndarray = "*"
rand = "*"
serde = { version = "*", features = ["derive"] }
serde_json = "*"
tracing = "*"
tracing-subscriber = "*"
