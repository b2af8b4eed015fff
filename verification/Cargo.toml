[package]
name = "ttf2mesh"
version = "0.2.1"
edition = "2021"
publish = false

[dependencies]
ttf2mesh-sys = "0.1"
rand = "0.8"
libfuzzer-sys = "0.4"
