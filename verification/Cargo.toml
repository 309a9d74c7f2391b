[package]
name = "gitui_core"
version = "0.1.0"
edition = "2021"
publish = false

[dependencies]
anyhow = "1"
backtrace = "0.3"
crossbeam-channel = "0.5"
crossterm = "*"
dirs = "*"
log = "0.4"
ratatui = "*"
rayon-core = "1"
scopeguard = "1"
