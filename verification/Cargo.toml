[package]
name = "sqlite"
version = "0.1.0"
edition = "2021"
publish = false

[dependencies]
rusqlite = "0.32"
clap = "4"
