[package]
name = "mouse_line_selection"
version = "0.1.0"
edition = "2021"
publish = false

[dependencies]
crossterm = "0.28.1"
ratatui = "0.29.0"
unicode-width = "0.2"
