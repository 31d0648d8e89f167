[package]
name = "broot"
version = "0.1.0"
edition = "2021"
publish = false

[dependencies]
bet = "=1.1.0"
serde = { version = "=1.0.229", features = ["derive"] }
directories = "=5.0.1"
toml = "=0.8.23"
terminal-clipboard = "=0.4.1"
opener = "=0.7.2"
trash = "=5.2.9"
strict = "=0.2.0"
open = "=5.4.5"
copypasta = "=0.10.2"
clap = { version = "4", features = ["derive"] }
