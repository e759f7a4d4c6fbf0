[package]
name = "imgui_support"
version = "0.1.0"
edition = "2021"
publish = false

[dependencies]
gl = "*"
glfw = "*"
image = "*"
imgui = "*"
mint = "*"
serde = { version = "*", features = ["derive"] }
xplm = "*"
xplm-sys = "*"
