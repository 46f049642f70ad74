[package]
name = "stellaris"
version = "0.1.0"
edition = "2021"
publish = false

[dependencies]
rand = "0.8"
noise = "0.9"
image = { version = "0.25", default-features = false, features = ["png"] }
raylib = "5.5"
