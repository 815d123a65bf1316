[package]
name = "rustybird"
version = "0.1.0"
edition = "2021"
publish = false

[dependencies]
macroquad = "0.4"
image = { version = "0.24", default-features = false, features = ["ico"] }
