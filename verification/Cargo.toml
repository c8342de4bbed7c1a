[package]
name = "breakout_clone"
version = "0.1.0"
edition = "2021"
publish = false

[dependencies]
image = "*"
cgmath = "*"
