[package]
name = "lamp_control"
version = "0.1.0"
edition = "2021"
publish = false

[dependencies]
clap = "2"
num-traits = "0.2"
palette = { version = "0.5", default-features = false, features = ["std"] }
reqwest = { version = "0.12", default-features = false, features = ["blocking"] }
rust-ini = "*"
serde = { version = "1", features = ["derive"] }
serde_json = "1"
xdg = "2"
