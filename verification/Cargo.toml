[package]
name = "bun2nix"
version = "0.1.0"
edition = "2021"
publish = false

[dependencies]
askama = "*"
serde = { version = "*", features = ["derive"] }
