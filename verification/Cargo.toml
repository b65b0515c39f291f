[package]
name = "simulacra"
version = "0.1.0"
edition = "2021"
publish = false

[dependencies]
gl = "*"
glfw = "*"
log = "*"
simple_logger = "*"
