[package]
name = "gbar"
version = "0.1.0"
edition = "2021"
publish = false

[dependencies]
anyhow = "1"
battery = "*"
chrono = "0.4"
dirs = "*"
image = { version = "*", default-features = false, features = ["png"] }
niri-ipc = "*"
smol = "2"
