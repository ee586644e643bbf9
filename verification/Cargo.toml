[package]
name = "pop_cli"
version = "0.1.0"
edition = "2021"
publish = false

[dependencies]
anyhow = "=1.0.104"
clap = { version = "=4.6.7", features = ["derive"] }
cliclack = "=0.5.6"
sp-core = { version = "=43.0.0", default-features = false }
tempfile = "=3.27.0"
url = "=2.5.8"
walkdir = "=2.5.0"
