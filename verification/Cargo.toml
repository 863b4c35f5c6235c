[package]
name = "hdcquery"
version = "0.1.0"
edition = "2021"
publish = false

[dependencies]
anyhow = "1"
atty = "0.2"
bytesize = "1"
chrono = { version = "0.4", features = ["serde"] }
gumdrop = "0.8"
reqwest = { version = "0.12", features = ["json"] }
serde = { version = "1", features = ["derive"] }
shell-words = "1"
terminal_size = "0.1"
textwrap = "0.11"
tokio = { version = "1", features = ["rt-multi-thread", "io-std", "io-util", "sync", "macros"] }
