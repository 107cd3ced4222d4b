[package]
name = "reconciler"
version = "0.1.0"
edition = "2021"
publish = false

[dependencies]
chrono = "*"
clap = { version = "*", features = ["derive"] }
clap_derive = "*"
nix = { version = "*", features = ["user"] }
serde = { version = "*", features = ["derive"] }
toml = "*"
