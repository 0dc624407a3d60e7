[package]
name = "stcat"
version = "0.2.0"
edition = "2021"
publish = false

[dependencies]
clap = "2"
failure = "0.1"
slog = "2"
slog-async = "2"
slog-term = "2"
xmas-elf = "*"
