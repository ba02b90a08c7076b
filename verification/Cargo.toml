[package]
name = "relay"
version = "0.1.0"
edition = "2021"
publish = false

[dependencies]
crossterm = "0.25"
termion = "1.5"
tui = { version = "0.19", features = ["termion"] }
