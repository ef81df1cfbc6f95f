[package]
name = "lurk_dashboard"
version = "0.1.0"
edition = "2021"
publish = false

[dependencies]
tui = { version = "0.19", default-features = false, features = ["termion"] }
termion = "1.5"
