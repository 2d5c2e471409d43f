[package]
name = "pixelsort"
version = "0.1.0"
edition = "2021"
publish = false

[dependencies]
clap = { version = "*", features = ["derive"] }
image = "*"
indicatif = "*"
rayon = "*"
strum = { version = "*", features = ["derive"] }
