[package]
name = "python-manager"
version = "0.1.0"
edition = "2021"
publish = false

[dependencies]
shellexpand = "*"
clap = { version = "*", features = ["derive"] }
colored = "*"
config = { version = "*", default-features = false, features = ["toml"] }
once_cell = "*"
serde = { version = "*", features = ["derive"] }
tokio = { version = "*", features = ["process", "io-util", "macros", "rt-multi-thread", "sync"] }
