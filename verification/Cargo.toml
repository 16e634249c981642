[package]
name = "renderer"
version = "0.1.0"
edition = "2021"
publish = false

[dependencies]
gl = "0.14"
image = { version = "*", default-features = false }
thiserror = "1"
ultraviolet = "*"
