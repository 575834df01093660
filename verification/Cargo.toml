[package]
name = "softrender"
version = "0.1.0"
edition = "2021"
publish = false

[dependencies]
ply-rs = "*"
minifb = "*"
image = "*"
obj-rs = "*"
