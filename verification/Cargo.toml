[package]
name = "cargo_open"
version = "0.1.0"
edition = "2021"
publish = false

[dependencies]
camino = "*"
cargo_metadata = "*"
clap = { version = "*", features = ["derive"] }
