[package]
name = "mpv_embed"
version = "0.1.0"
edition = "2021"
publish = false

[dependencies]
libloading = "*"
