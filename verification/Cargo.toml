[package]
name = "libllm_tui"
version = "0.1.0"
edition = "2021"
publish = false

[dependencies]
rand = "0.9"
time = { version = "0.3", features = ["parsing", "formatting", "macros"] }
regex = "1"
dirs = "6"
ratatui = "0.29"
crossterm = "0.28"
