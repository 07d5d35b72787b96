[package]
name = "deployer_core"
version = "0.1.0"
edition = "2021"
publish = false

[dependencies]
anyhow = "*"
chrono = "*"
clap = { version = "*", features = ["derive"] }
colored = "*"
ctrlc = "*"
dirs = "*"
inquire = "*"
mimalloc = "*"
regex = "*"
serde = { version = "*", features = ["derive"] }
serde_json = "*"
strip-ansi-escapes = "*"
uuid = { version = "*", features = ["v4"] }
