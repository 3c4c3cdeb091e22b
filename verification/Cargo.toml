[package]
name = "est_audio"
version = "0.1.0"
edition = "2021"
publish = false

[dependencies]
lewton = "*"
ogg-opus = "*"
miniaudio-sys = "*"
