[package]
name = "tw_ctrl"
version = "0.1.0"
edition = "2021"
publish = false

[dependencies]
nix = "0.26"
chrono = "0.4"
reqwest = { version = "0.11", default-features = false, features = ["blocking"] }
