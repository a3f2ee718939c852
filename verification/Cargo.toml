[package]
name = "renderer"
version = "0.1.0"
edition = "2021"
publish = false

[dependencies]
nalgebra = "0.33"
rand = "0.8"
image = { version = "0.25", default-features = false, features = ["pnm"] }
