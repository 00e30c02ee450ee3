[package]
name = "slog_telegraf"
version = "0.1.0"
edition = "2021"
publish = false

[dependencies]
slog = "2"
url = "2"
