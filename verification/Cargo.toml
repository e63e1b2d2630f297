[package]
name = "lazyqmk"
version = "0.1.0"
edition = "2021"
publish = false

[dependencies]
chrono = "0.4"
ratatui = "*"
crossterm = "*"
serde = { version = "1", features = ["derive"] }
toml = "*"
dark-light = "*"
