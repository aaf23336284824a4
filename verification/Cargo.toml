[package]
name = "inaccunes"
version = "0.1.0"
edition = "2021"
publish = false

[dependencies]
anyhow = "=1.0.104"
env_logger = "=0.11.11"
log = "=0.4.34"
png = "=0.17.16"
sdl2 = { version = "=0.38.0", features = ["unsafe_textures"] }
