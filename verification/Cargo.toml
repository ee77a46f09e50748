[package]
name = "multigit"
version = "0.1.0"
edition = "2021"
publish = false

[dependencies]
chrono = "0.4"
url = "2"
dirs = "*"
serde = { version = "1", features = ["derive"] }
serde_json = "1"
toml = "*"
clap = { version = "4", features = ["derive"] }
dialoguer = "*"
git2 = { version = "*", default-features = false }
tokio = { version = "1", features = ["rt-multi-thread", "time", "signal", "process"] }
anyhow = "1"
tracing = "0.1"
nix = { version = "*", features = ["signal"] }
