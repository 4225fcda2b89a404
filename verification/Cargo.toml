[package]
name = "chirp8"
version = "0.1.0"
edition = "2021"
publish = false

[dependencies]
rand = "0.8"
glutin = "0.29"
ears = "*"
thiserror = "1"
bitflags = "1.3"
