[package]
name = "yotibox"
version = "0.1.0"
edition = "2021"
publish = false

[dependencies]
serde_json = "1"
tinyjson = "2"
log = "0.4"
env_logger = "*"
dialoguer = "*"
spidev = "*"
rodio = "0.11"
