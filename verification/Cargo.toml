[package]
name = "gravedig"
version = "0.1.0"
edition = "2021"
publish = false

[dependencies]
good-web-game = "=0.3.0"
nalgebra = { version = "=0.35.0", features = ["mint"] }
mint = "=0.5.9"
quad-rand = "0.2"
