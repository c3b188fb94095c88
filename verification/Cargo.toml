[package]
name = "clipm"
version = "0.1.0"
edition = "2021"
publish = false

[dependencies]
rusqlite = { version = "*", features = ["bundled"] }
chrono = "0.4"
clap = { version = "4", features = ["derive"] }
arboard = { version = "3", default-features = false }
dirs = "*"
tabled = "*"
