[package]
name = "vulkust"
version = "0.1.0"
edition = "2021"
publish = false

[dependencies]
gltf = "1"
image = "=0.25.10"
libc = "=0.2.191"
num_cpus = "=1.17.0"
