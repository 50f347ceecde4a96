[package]
name = "pixel_acc"
version = "0.1.0"
edition = "2021"
publish = false

[dependencies]
rgb = "0.8"
num-traits = "0.2"
