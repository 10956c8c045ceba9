[package]
name = "radar"
version = "0.1.0"
edition = "2021"
publish = false

[dependencies]
gl = "0.14"
glfw = "*"
image = "*"
rand = "0.8"
rustc-serialize = "0.3"
specs = "*"
time = "0.1"
