[package]
name = "line_prompt"
version = "0.1.0"
edition = "2021"
publish = false

[dependencies]
ropey = "1"
termion = "1.5"
tui = { version = "0.19", default-features = false, features = ["termion"] }
