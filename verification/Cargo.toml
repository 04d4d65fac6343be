[package]
name = "shader_toy_slang"
version = "0.1.0"
edition = "2021"
publish = false

[dependencies]
textwrap = { version = "=0.16.4", features = ["terminal_size"] }
regex = "=1.13.1"
ash = "=0.38.0"
anyhow = "=1.0.104"
log = "=0.4.35"
flexi_logger = { version = "=0.31.10", features = ["async"] }
clap = { version = "=4.6.7", features = ["derive"] }
argfile = "=1.0.0"
glfw = "=0.63.0"
image = "=0.25.10"
nalgebra = "=0.35.0"
notify-debouncer-full = "=0.7.0"
bon = "=3.10.3"
