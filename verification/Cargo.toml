[package]
name = "pingboard"
version = "0.1.0"
edition = "2021"
publish = false

[dependencies]
chrono = "0.4"
crossterm = "*"
log = "*"
ping = "*"
simplelog = "*"
structopt = "0.3"
