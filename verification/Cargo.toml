[package]
name = "gvrtex_cli"
version = "0.1.0"
edition = "2021"
publish = false

[dependencies]
gvrtex = "*"
clap = { version = "4", features = ["derive"] }
color-print = "*"
