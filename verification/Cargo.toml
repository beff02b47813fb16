[package]
name = "chessboard"
version = "0.1.0"
edition = "2021"
publish = false

[dependencies]
pleco = "0.5"
iced_native = "0.10"
