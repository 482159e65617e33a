[package]
name = "status_line"
version = "0.1.0"
edition = "2021"
publish = false

[dependencies]
unicode-width = "*"
ansi_term = "*"
zellij-tile = "*"
zellij-tile-utils = "*"
