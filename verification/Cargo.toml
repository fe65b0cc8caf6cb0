[package]
name = "latgraph"
version = "0.1.0"
edition = "2021"
publish = false

[dependencies]
clap = "2.33"
conrod_core = "0.76"
conrod_glium = "0.76"
conrod_winit = "0.76"
dirs = "3"
env_logger = "0.8"
glium = "0.28"
image = { version = "0.23", default-features = false, features = ["png"] }
log = "0.4"
serde = "1"
serde_derive = "1"
thread-priority = "*"
toml = "0.5"
winit = "0.23"
