[package]
name = "storm"
version = "0.1.0"
edition = "2021"
publish = false

[dependencies]
opencl3 = "*"
lazy_static = "*"
float-cmp = "*"
num-traits = "*"
