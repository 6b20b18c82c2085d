[package]
name = "slog_atomic"
version = "0.1.0"
edition = "2021"
publish = false

[dependencies]
arc-swap = "*"
slog = "*"
