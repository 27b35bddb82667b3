[package]
name = "txt_timer"
version = "0.1.0"
edition = "2021"
publish = false

[dependencies]
chrono = "*"
clap = { version = "*", features = ["derive"] }
colored = "*"
regex = "*"
signal-hook = "*"

[dev-dependencies]
itertools = "*"
