[package]
name = "git_grab"
version = "0.1.0"
edition = "2021"
publish = false

[dependencies]
url = "2"
home = "*"
pico-args = "*"
