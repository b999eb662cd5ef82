[package]
name = "speedrun"
version = "0.1.0"
edition = "2021"
publish = false

[dependencies]
bytesize = "*"
reqwest = { version = "*", default-features = false, features = ["stream"] }
tokio = { version = "*", features = ["rt-multi-thread", "macros", "fs", "io-util"] }
futures-util = "*"
indicatif = "*"
clap = { version = "*", features = ["derive"] }
colored = "*"
inquire = "*"
serde = { version = "*", features = ["derive"] }
serde_json = "*"
toml = "*"
chrono = { version = "*", features = ["serde"] }
dirs = "*"
