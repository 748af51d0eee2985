[package]
name = "mousestick"
version = "0.1.0"
edition = "2021"
publish = false

[dependencies]
anyhow = "*"
interception = "*"
log = "*"
serde = { version = "*", features = ["derive"] }
vigem = "*"
