[package]
name = "codex_update"
version = "0.1.0"
edition = "2021"
publish = false

[dependencies]
chrono = "0.4"
shlex = "1.3"
