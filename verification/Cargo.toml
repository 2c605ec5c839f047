[package]
name = "cassettes"
version = "0.1.0"
edition = "2021"
publish = false

[dependencies]
anyhow = "1"
gtk = "0.9"
rusqlite = "*"
