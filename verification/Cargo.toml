[package]
name = "magnet_torrent"
version = "0.1.0"
edition = "2021"
publish = false

[dependencies]
clap = "2"
ssh2 = "0.9"
yaml-rust = "0.4"
