[package]
name = "rtwrs_core"
version = "0.1.0"
edition = "2021"
publish = false

[dependencies]
rand = { version = "0.8", features = ["small_rng"] }
rayon = "1"
image = { version = "0.23", default-features = false, features = ["jpeg", "png"] }
structopt = "0.3"
glam = "*"
pixels = "0.3"
winit = "0.24"
