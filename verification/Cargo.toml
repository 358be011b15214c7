[package]
name = "seabox"
version = "0.1.0"
edition = "2021"
publish = false

[dependencies]
clap = { version = "*", features = ["derive"] }
directories = "*"
nix = { version = "*", features = ["user"] }
serde = { version = "*", features = ["derive"] }
serde_json = "*"
shlex = "*"
toml = "*"
