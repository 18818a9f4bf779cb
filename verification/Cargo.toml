[package]
name = "scut"
version = "0.1.0"
edition = "2021"
publish = false

[dependencies]
anyhow = "1"
clap = { version = "4", features = ["derive"] }
dirs = "5"
dropbox-dir = "*"
edit = "0.1"
serde = { version = "1", features = ["derive"] }
thiserror = "1"
toml = "0.8"
