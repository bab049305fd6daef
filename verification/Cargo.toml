[package]
name = "shaderlink"
version = "0.1.0"
edition = "2021"
publish = false

[dependencies]
gl33 = { version = "0.2", features = ["global_loader"] }
glutin = "0.29"
nalgebra = "0.32"
png = "0.16"
