[package]
name = "playlist_audio"
version = "0.1.0"
edition = "2021"
publish = false

[dependencies]
anyhow = "1"
id3 = "1"
itertools = "*"
log = "0.4"
pretty_env_logger = "*"
