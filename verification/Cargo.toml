[package]
name = "shinzou"
version = "0.1.0"
edition = "2021"
publish = false

[dependencies]
ultraviolet = "0.8"
gilrs-core = "0.3"
winit = "0.24"
log = "0.4"
env_logger = "0.8"
chrono = "0.4"
ash = "0.31"
vk-mem = "0.2"
image = "0.23"
tobj = "3"
field-offset = "0.3"
