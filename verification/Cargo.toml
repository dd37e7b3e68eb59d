[package]
name = "rust_recon"
version = "0.1.0"
edition = "2021"
publish = false

[dependencies]
chrono = "*"
clap = "*"
console = "*"
indicatif = "*"
reqwest = { version = "*", default-features = false, features = ["blocking"] }
serde_json = "*"
