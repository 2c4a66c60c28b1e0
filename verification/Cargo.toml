[package]
name = "mandelbrot"
version = "0.1.0"
edition = "2021"
publish = false

[dependencies]
anyhow = "*"
clap = "*"
config = "*"
console = "*"
image = "*"
indicatif = "*"
log = "*"
once_cell = "*"
pretty_env_logger = "*"
