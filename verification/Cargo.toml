[package]
name = "retro_games"
version = "0.1.0"
edition = "2021"
publish = false

[dependencies]
fastrand = "=2.5.0"
graphics-shapes = "=0.4.4"
buffer-graphics-lib = "=0.15.1"
simple-game-utils = { version = "=0.4.2", default-features = false }
audio-engine = "0.4"
color-eyre = "=0.6.5"
env_logger = "=0.11.11"
log = "=0.4.34"
