[package]
name = "blsct"
version = "0.1.0"
edition = "2021"
publish = false

[dependencies]
clap = "4"
dirs = "*"
serde_json = "1"
termion = "*"
webbrowser = "*"
