[package]
name = "impostor"
version = "0.1.0"
edition = "2021"
publish = false

[dependencies]
num-traits = "0.2"
rand = "0.8"
clap = "2"
rustyline = "5"
chrono = "0.4"
timer = "0.2"
gl = "0.14"
glutin = "0.21"
rodio = "0.9"
cpal = "0.8"
