[package]
name = "raya"
version = "0.1.0"
edition = "2021"
publish = false

[dependencies]
clap = "*"
gltf = { version = "*", features = ["extras"] }
hound = "*"
nalgebra = "*"
pbr = "*"
rand = "*"
rayon = "*"
rustfft = "*"
serde = { version = "*", features = ["derive"] }
serde_json = "*"
text_io = "*"
