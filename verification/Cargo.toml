[package]
name = "rs_ffmpeg"
version = "0.1.0"
edition = "2021"
publish = false

[dependencies]
libc = "0.2"
log = "0.4"
chrono = "0.4"
pretty_env_logger = "0.4"
android_logger = "*"
