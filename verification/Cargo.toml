[package]
name = "xarfuse"
version = "0.1.0"
edition = "2021"
publish = false

[dependencies]
clap = "=2.34.0"
nix = { version = "=0.30.1", features = ["fs", "user"] }
serde = { version = "1", features = ["derive"] }
serde-aux = "*"
toml = "=0.8.23"
