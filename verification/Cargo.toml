[package]
name = "neural_nets"
version = "0.1.0"
edition = "2021"
publish = false

[dependencies]
serde = { version = "*", features = ["derive"] }
serde_json = "*"
ron = "*"
toml = "*"
bitcode = { version = "*", features = ["derive"] }
