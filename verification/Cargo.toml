[package]
name = "retroc64"
version = "0.1.0"
edition = "2021"
publish = false

[dependencies]
clap = "2"
env_logger = "*"
log = "0.4"
sdl2 = "0.29"
time = "0.1"
