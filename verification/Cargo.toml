[package]
name = "virtual_terminal"
version = "0.1.0"
edition = "2021"
publish = false

[dependencies]
async-trait = "*"
crossterm = "*"
keycodes = "*"
tokio = { version = "*", features = ["macros", "rt-multi-thread", "sync", "io-util"] }
