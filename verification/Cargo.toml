[package]
name = "shotwell-vfs"
version = "0.1.0"
edition = "2021"
publish = false

[dependencies]
clap = "2"
env_logger = "0.4"
fuse = "0.3"
libc = "0.2"
log = "0.3"
sqlite = "0.23"
time = "0.1"
