[package]
name = "weatherlog"
version = "0.1.0"
edition = "2021"
publish = false

[dependencies]
sqlite = "*"
serde = { version = "*", features = ["derive"] }
clap = { version = "*", features = ["derive"] }
rouille = "*"
dht22_pi = "*"
tracing = "*"
tracing-subscriber = "*"
