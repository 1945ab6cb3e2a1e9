[package]
name = "raytracer"
version = "0.1.0"
edition = "2021"
publish = false

[dependencies]
rand = "=0.7.3"
num_cpus = "=1.17.0"
image = { version = "=0.23.14", default-features = false, features = ["png"] }
progress_bar = "=0.1.3"
