[package]
name = "bubble_world"
version = "0.1.0"
edition = "2021"
publish = false

[dependencies]
macroquad = "0.4"
miniquad = "0.4"
half = "2"
serde = { version = "1", features = ["derive"] }
