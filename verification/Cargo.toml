[package]
name = "ampterm"
version = "0.1.0"
edition = "2021"
publish = false

[dependencies]
rand = "0.9"
ratatui = "0.29"
crossterm = "0.28"
tui-textarea = "0.7"
serde = { version = "1", features = ["derive"] }
strum = { version = "0.26", features = ["derive"] }
clap = { version = "4", features = ["derive"] }
