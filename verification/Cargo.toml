[package]
name = "tui_events"
version = "0.1.0"
edition = "2021"
publish = false

[dependencies]
crossterm = { version = "=0.29.0", features = ["bracketed-paste"] }
ratatui = "=0.30.2"
