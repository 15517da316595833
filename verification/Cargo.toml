[package]
name = "projector"
version = "0.1.0"
edition = "2021"
publish = false

[dependencies]
rusqlite = { version = "*", features = ["bundled"] }
chrono = "*"
ratatui = "*"
clap = { version = "*", features = ["derive"] }
confy = "*"
serde = { version = "*", features = ["derive"] }
directories = "*"
hostname = "*"
