[package]
name = "comprehensive-calculator"
version = "0.1.0"
edition = "2021"
publish = false

[dependencies]
arboard = { version = "3", default-features = false }
crossterm = "0.28"
directories = "5"
evalexpr = "*"
ratatui = "0.29"
serde = { version = "1", features = ["derive"] }
serde_json = "1"
