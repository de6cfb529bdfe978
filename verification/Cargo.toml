[package]
name = "ghidra_cli"
version = "0.1.0"
edition = "2021"
publish = false

[dependencies]
goblin = "0.8"
md5 = "0.7"
clap = { version = "4", features = ["derive"] }
serde = { version = "1", features = ["derive"] }
serde_json = "1"
serde_yaml = "0.9"
comfy-table = "7"
dirs = "5"
walkdir = "2"
atty = "0.2"
regex = "1"
anyhow = "1"
thiserror = "1"
