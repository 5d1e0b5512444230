[package]
name = "garfield"
version = "0.1.0"
edition = "2021"
publish = false

[dependencies]
chrono = "0.4"
dirs = "*"
quick-xml = "*"
serde = { version = "1", features = ["derive"] }
serde_json = "1"
clap = { version = "4", features = ["derive"] }
nucleo-matcher = "*"
freedesktop_entry_parser = "*"
anyhow = "1"
walkdir = "2"
