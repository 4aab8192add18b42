[package]
name = "pschip8"
version = "0.1.0"
edition = "2021"
publish = false

[dependencies]
clap = "2"
rand = "0.4"
sdl2 = "0.29"
