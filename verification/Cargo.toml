[package]
name = "gencad"
version = "0.1.0"
edition = "2021"
publish = false

[dependencies]
nom = "=8.0.0"
clap = { version = "4", features = ["derive"] }
chrono = "0.4"
