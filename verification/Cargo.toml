[package]
name = "screen_shot"
version = "0.1.0"
edition = "2021"
publish = false

[dependencies]
anyhow = "*"
core-graphics = "*"
glam = "*"
half = "*"
libavif-sys = { version = "*", default-features = false }
screencapturekit = "*"
windows-capture = "*"
