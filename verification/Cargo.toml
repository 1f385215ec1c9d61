[package]
name = "frameloop"
version = "0.1.0"
edition = "2021"
publish = false

[dependencies]
chrono = "*"
image = "*"
cgmath = "*"
rayon = "*"
