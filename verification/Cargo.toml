[package]
name = "euroc"
version = "0.1.0"
edition = "2021"
publish = false

[dependencies]
anyhow = "1"
csv = "1"
image = "0.25"
nalgebra = "0.33"
yaml-rust = "0.4"
