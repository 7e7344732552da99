[package]
name = "raytracer"
version = "0.1.0"
edition = "2021"
publish = false

[dependencies]
clap = { version = "=4.6.7", default-features = false, features = ["std", "derive", "help", "usage", "error-context"] }
eframe = { version = "=0.20.1", default-features = false, features = ["glow"] }
egui_extras = { version = "=0.20.0", default-features = false }
image = { version = "=0.24.9", default-features = false, features = ["png"] }
indicatif = { version = "=0.17.11", default-features = false }
nalgebra = { version = "=0.32.6", default-features = false, features = ["std"] }
poll-promise = "=0.2.1"
rand = { version = "=0.8.8", features = ["small_rng"] }
rayon = "=1.12.0"
