[package]
name = "zellij_picker"
version = "0.1.0"
edition = "2021"
publish = false

[dependencies]
regex = "1"
crossterm = "0.28"
ratatui = "0.29"
