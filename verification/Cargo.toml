[package]
name = "volume_generator"
version = "0.1.0"
edition = "2021"

[dependencies]
byteorder = "1"
rand = "0.8"
opencl3 = "*"
