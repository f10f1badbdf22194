[package]
name = "ascii_avatar"
version = "0.1.0"
edition = "2021"
publish = false

[dependencies]
rand = "*"
chrono = "*"
color-eyre = "*"
crossterm = "*"
ratatui = "*"
rodio = "*"
