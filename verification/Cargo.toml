[package]
name = "azukiproto"
version = "0.1.0"
edition = "2021"
publish = false

[dependencies]
clap = { version = "*", features = ["derive"] }
log = "*"
log4rs = "*"
serde = { version = "*", features = ["derive"] }
serde_json = "*"
