[package]
name = "loudness_war"
version = "0.1.0"
edition = "2021"
publish = false

[dependencies]
ebur128 = "*"
wav = "*"
