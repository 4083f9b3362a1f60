[package]
name = "map_tests"
version = "0.1.0"
edition = "2021"
publish = false

[dependencies]
serde = { version = "1", features = ["derive"] }
rayon = "1"
noise = "0.9"
eframe = { version = "=0.31.1", default-features = false, features = ["glow", "default_fonts", "x11"] }
egui = "=0.31.1"
