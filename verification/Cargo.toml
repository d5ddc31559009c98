[package]
name = "super_simple"
version = "0.1.0"
edition = "2021"
publish = false

[dependencies]
ggez = { version = "=0.10.0", default-features = false }
rapier2d = "=0.36.0"
