[package]
name = "bat"
version = "0.1.0"
edition = "2021"
publish = false

[dependencies]
ansi_term = "0.12"
atty = "0.2"
clap = { version = "4", features = ["cargo"] }
console = "0.15"
git2 = "*"
syntect = "5"
