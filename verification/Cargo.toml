[package]
name = "mlx_metal"
version = "0.1.0"
edition = "2021"
publish = false

[dependencies]
half = "2"
mlx-sys = "*"
