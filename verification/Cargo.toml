[package]
name = "leafrender"
version = "0.1.0"
edition = "2021"

[dependencies]
image = { version = "=0.25.10", default-features = false, features = ["jpeg", "png"] }
evdev = "=0.13.2"
glutin = "0.20"
