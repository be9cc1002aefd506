[package]
name = "desk_creature"
version = "0.1.0"
edition = "2021"
publish = false

[dependencies]
rand = "0.8"
image = "0.24"
imageproc = "0.23"
