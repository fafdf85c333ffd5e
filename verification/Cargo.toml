[package]
name = "chess_board"
version = "0.1.0"
edition = "2021"
publish = false

[dependencies]
pleco = "*"
iced = { version = "0.3", features = ["canvas", "svg"] }
iced_native = "0.4"
iced_graphics = "0.2"
