[package]
name = "battop"
version = "0.1.0"
edition = "2021"
publish = false

[dependencies]
battery = "0.7"
crossterm = "*"
humantime = "2"
log = "0.4"
stderrlog = "*"
structopt = "0.3"
tui = { version = "*", default-features = false, features = ["crossterm"] }
