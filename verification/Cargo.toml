[package]
name = "headscale_operator"
version = "0.1.0"
edition = "2021"
publish = false

[dependencies]
serde_json = "*"
clap = { version = "*", features = ["derive", "env"] }
nix = { version = "*", features = ["signal"] }
