[package]
name = "i8080"
version = "0.1.0"
edition = "2021"
publish = false

[dependencies]
clap = "2"
kira = "0.5"
pixels = "0.2"
winit = "0.24"
