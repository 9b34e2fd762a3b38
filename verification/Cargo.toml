[package]
name = "mematlas_rs"
version = "0.1.0"
edition = "2021"
publish = false

[dependencies]
clap = { version = "4", features = ["derive"] }
clap-stdin = "*"
humansize = "2"
itertools = "*"
log = "0.4"
nucleo = "*"
procfs = "*"
ratatui = "*"
tui-logger = "*"
