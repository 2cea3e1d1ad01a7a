[package]
name = "quick_noise"
version = "0.1.0"
edition = "2021"
publish = false

[dependencies]
cfg-if = "1"
num-traits = "0.2"
image = { version = "0.25", default-features = false, features = ["png"] }
