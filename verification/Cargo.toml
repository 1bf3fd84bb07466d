[package]
name = "cubix"
version = "0.1.0"
edition = "2021"
publish = false

[dependencies]
cgmath = "*"
gl = "*"
glfw = "*"
serde = { version = "*", features = ["derive"] }
toml = "*"
