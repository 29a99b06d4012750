[package]
name = "launchpad"
version = "0.1.0"
edition = "2021"
publish = false

[dependencies]
clap = { version = "4", features = ["derive"] }
console = "*"
dialoguer = "*"
dirs = "*"
indicatif = "*"
regex-lite = "*"
serde = { version = "1", features = ["derive"] }
shellexpand = "*"
thiserror = "*"
tokio = { version = "1", features = ["rt-multi-thread", "macros", "process", "io-util"] }
toml = "*"
which = "*"
