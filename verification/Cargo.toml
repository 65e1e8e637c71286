[package]
name = "linalg"
version = "0.1.0"
edition = "2021"
publish = false

[dependencies]
cast = "*"
num_cpus = "*"
log = "*"
env_logger = "*"
image = { version = "*", default-features = false, features = ["jpeg"] }
time = "0.1"
