[package]
name = "sim_audio_hosting"
version = "0.1.0"
edition = "2021"
publish = false

[dependencies]
cpal = "*"
wasmtime = "*"
