[package]
name = "bevy_animator"
version = "0.1.0"
edition = "2021"
publish = false

[dependencies]
asefile = "*"
