[package]
name = "shell_prompt"
version = "0.1.0"
edition = "2021"
publish = false

[dependencies]
fork = "0.1"
getopts = "0.2"
nix = "0.26"
rand = "0.8"
regex = "1"
serde = { version = "1", features = ["derive"] }
serde_json = "1"
