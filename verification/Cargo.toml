[package]
name = "libg933"
version = "0.1.0"
edition = "2021"
publish = false

[dependencies]
clap = "2"
env_logger = "0.4"
failure = "0.1"
indoc = "0.2"
log = "0.4"
udev = "0.2"
