[package]
name = "yanyaengine"
version = "0.1.0"
edition = "2021"
publish = false

[dependencies]
vulkano = "0.35"
winit = "0.30"
nalgebra = "*"
image = "*"
ab_glyph = "*"
parking_lot = "*"
serde = { version = "*", features = ["derive"] }
bincode = { version = "2", features = ["serde"] }
strum = { version = "*", features = ["derive"] }
foldhash = "*"
