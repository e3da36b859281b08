[package]
name = "zankyou"
version = "0.1.0"
edition = "2021"
publish = false

[dependencies]
anyhow = "*"
async-trait = "*"
cpal = "*"
crossterm = { version = "*", features = ["event-stream"] }
futures = "*"
gag = "*"
rand = "0.9"
rand_chacha = "0.9"
ratatui = "*"
rustysynth = "*"
tokio = { version = "1", features = ["full"] }
tracing = "*"
