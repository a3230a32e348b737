[package]
name = "nuance"
version = "0.1.0"
edition = "2021"
publish = false

[dependencies]
byteorder = "=1.5.0"
hyper = "=0.10.16"
language-tags = "=0.2.2"
rust-ini = "=0.21.3"
log = "=0.3.9"
env_logger = "=0.4.3"
portaudio = "=0.7.1"
